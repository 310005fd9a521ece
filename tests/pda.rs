use anchor_lang::prelude::Pubkey;
use bonding_curve_system::pda::{address_from_bytes, address_to_bytes, PdaHelper};
use bonding_curve_system::types::Address;

fn addr(n: u64) -> Address {
    Address { w0: n, w1: n.wrapping_mul(31), w2: 0xdead_beef, w3: n ^ 0x5555 }
}

fn key(a: &Address) -> Pubkey {
    Pubkey::try_from(address_to_bytes(a).as_slice()).unwrap()
}

#[test]
fn address_bytes_round_trip() {
    let a = addr(123_456_789);
    let bytes = address_to_bytes(&a);
    assert_eq!(bytes.len(), 32);
    assert_eq!(bytes[0..8], 123_456_789u64.to_le_bytes());
    assert_eq!(address_from_bytes(&bytes), a);
}

#[test]
fn pool_address_matches_the_runtime_derivation() {
    let collection = addr(5);
    let program = addr(9);
    let (expected, bump) = Pubkey::find_program_address(&[b"pool", key(&collection).as_ref()], &key(&program));
    let (found, found_bump) = PdaHelper::derive_pool_pda(&collection, &program).unwrap();
    assert_eq!(key(&found), expected);
    assert_eq!(found_bump, bump);
    assert_ne!(found, program);
    assert_ne!(found, collection);
}

#[test]
fn bid_address_uses_the_bid_id() {
    let mint = addr(77);
    let program = addr(9);
    let (expected, bump) = Pubkey::find_program_address(
        &[b"bid", key(&mint).as_ref(), &42u64.to_le_bytes()],
        &key(&program),
    );
    let (found, found_bump) = PdaHelper::derive_bid_pda(&mint, 42, &program).unwrap();
    assert_eq!(key(&found), expected);
    assert_eq!(found_bump, bump);
    let (other, _) = PdaHelper::derive_bid_pda(&mint, 43, &program).unwrap();
    assert_ne!(other, found);
}

#[test]
fn fee_claim_address_uses_the_round() {
    let mint = addr(77);
    let program = addr(9);
    let (expected, _) = Pubkey::find_program_address(
        &[b"fee-claim", key(&mint).as_ref(), &3u32.to_le_bytes()],
        &key(&program),
    );
    let (found, _) = PdaHelper::derive_fee_claim_pda(&mint, 3, &program).unwrap();
    assert_eq!(key(&found), expected);
}

#[test]
fn each_account_kind_has_its_own_address() {
    let mint = addr(77);
    let program = addr(9);
    let listing = PdaHelper::derive_bid_listing_pda(&mint, &program).unwrap().0;
    let tracker = PdaHelper::derive_minter_tracker_pda(&mint, &program).unwrap().0;
    let escrow = PdaHelper::derive_nft_escrow_pda(&mint, &program).unwrap().0;
    let distribution = PdaHelper::derive_collection_distribution_pda(&mint, &program).unwrap().0;
    let bid_escrow = PdaHelper::derive_bid_escrow_pda(&listing, &program).unwrap().0;
    let all = [listing, tracker, escrow, distribution, bid_escrow];
    for i in 0..all.len() {
        for j in 0..i {
            assert_ne!(all[i], all[j]);
        }
    }
    let (expected, _) = Pubkey::find_program_address(&[b"nft-escrow", key(&mint).as_ref()], &key(&program));
    assert_eq!(key(&escrow), expected);
}
