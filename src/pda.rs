use vstd::prelude::*;
use vstd::slice::slice_to_vec;
use vstd::string::StringSliceAdditionalSpecFns;

use crate::types::Address;

verus! {

/// The program address and bump seed found for `seeds` under the program whose
/// 32-byte id is `program_id`, if one is found.
pub uninterp spec fn program_address(seeds: Seq<Seq<u8>>, program_id: Seq<u8>) -> Option<
    (Seq<u8>, u8),
>;

/// Relies on `Pubkey::try_find_program_address` (solana-program, through
/// anchor-lang): the result depends on the seeds and the program id alone, and
/// with 16 seeds or more, or a seed longer than 32 bytes, no address is found.
/// A found address is a `Pubkey`, whose bytes are 32.
#[verifier::external_body]
fn try_find_program_address(seeds: &Vec<Vec<u8>>, program_id: &Vec<u8>) -> (r: Option<
    (Vec<u8>, u8),
>)
    requires
        program_id@.len() == 32,
    ensures
        match r {
            Some((k, b)) => k@.len() == 32 && program_address(
                seeds@.map_values(|s: Vec<u8>| s@),
                program_id@,
            ) == Some((k@, b)),
            None => program_address(seeds@.map_values(|s: Vec<u8>| s@), program_id@) is None,
        },
        (seeds@.len() >= 16 || (exists|i: int|
            0 <= i < seeds@.len() && #[trigger] seeds@[i]@.len() > 32)) ==> r is None,
{
    let slices: Vec<&[u8]> = seeds.iter().map(|s| s.as_slice()).collect();
    let id = anchor_lang::prelude::Pubkey::try_from(program_id.as_slice()).ok()?;
    anchor_lang::prelude::Pubkey::try_find_program_address(&slices, &id).map(
        |(k, b)| (k.to_bytes().to_vec(), b),
    )
}

/// The eight little-endian bytes of `w`.
pub open spec fn le_bytes(w: u64) -> Seq<u8> {
    seq![
        (w % 0x100) as u8,
        (w / 0x100 % 0x100) as u8,
        (w / 0x10000 % 0x100) as u8,
        (w / 0x1000000 % 0x100) as u8,
        (w / 0x100000000 % 0x100) as u8,
        (w / 0x10000000000 % 0x100) as u8,
        (w / 0x1000000000000 % 0x100) as u8,
        (w / 0x100000000000000 % 0x100) as u8,
    ]
}

/// The four little-endian bytes of `w`.
pub open spec fn le_bytes32(w: u32) -> Seq<u8> {
    seq![
        (w % 0x100) as u8,
        (w / 0x100 % 0x100) as u8,
        (w / 0x10000 % 0x100) as u8,
        (w / 0x1000000 % 0x100) as u8,
    ]
}

/// The 32 bytes of an address.
pub open spec fn address_bytes(a: Address) -> Seq<u8> {
    le_bytes(a.w0) + le_bytes(a.w1) + le_bytes(a.w2) + le_bytes(a.w3)
}

/// The little-endian word stored in `b` from index `at`.
pub open spec fn le_word(b: Seq<u8>, at: int) -> int {
    b[at] + 0x100 * b[at + 1] + 0x10000 * b[at + 2] + 0x1000000 * b[at + 3] + 0x100000000 * b[at
        + 4] + 0x10000000000 * b[at + 5] + 0x1000000000000 * b[at + 6] + 0x100000000000000 * b[at
        + 7]
}

/// The address whose bytes are `b` (32 of them).
pub open spec fn address_of_bytes(b: Seq<u8>) -> Address {
    Address {
        w0: le_word(b, 0) as u64,
        w1: le_word(b, 8) as u64,
        w2: le_word(b, 16) as u64,
        w3: le_word(b, 24) as u64,
    }
}

/// The program address for `seeds` under program `program_id`, as an address.
pub open spec fn pda_of(seeds: Seq<Seq<u8>>, program_id: Address) -> Option<(Address, u8)> {
    match program_address(seeds, address_bytes(program_id)) {
        Some((k, b)) => Some((address_of_bytes(k), b)),
        None => None,
    }
}

fn push_le_bytes(v: &mut Vec<u8>, w: u64)
    ensures
        final(v)@ == old(v)@ + le_bytes(w),
{
    v.push((w % 0x100) as u8);
    v.push((w / 0x100 % 0x100) as u8);
    v.push((w / 0x10000 % 0x100) as u8);
    v.push((w / 0x1000000 % 0x100) as u8);
    v.push((w / 0x100000000 % 0x100) as u8);
    v.push((w / 0x10000000000 % 0x100) as u8);
    v.push((w / 0x1000000000000 % 0x100) as u8);
    v.push((w / 0x100000000000000 % 0x100) as u8);
    assert(v@ =~= old(v)@ + le_bytes(w));
}

/// The 32 bytes of an address.
pub fn address_to_bytes(a: &Address) -> (r: Vec<u8>)
    ensures
        r@ == address_bytes(*a),
        r@.len() == 32,
{
    let mut v: Vec<u8> = Vec::new();
    push_le_bytes(&mut v, a.w0);
    push_le_bytes(&mut v, a.w1);
    push_le_bytes(&mut v, a.w2);
    push_le_bytes(&mut v, a.w3);
    assert(v@ =~= address_bytes(*a));
    v
}

fn word_at(b: &Vec<u8>, at: usize) -> (r: u64)
    requires
        at <= 24,
        at + 8 <= b@.len(),
    ensures
        r == le_word(b@, at as int),
{
    b[at] as u64 + 0x100 * b[at + 1] as u64 + 0x10000 * b[at + 2] as u64 + 0x1000000 * b[at + 3]
        as u64 + 0x100000000 * b[at + 4] as u64 + 0x10000000000 * b[at + 5] as u64
        + 0x1000000000000 * b[at + 6] as u64 + 0x100000000000000 * b[at + 7] as u64
}

/// The address whose bytes are `b`.
pub fn address_from_bytes(b: &Vec<u8>) -> (r: Address)
    requires
        b@.len() == 32,
    ensures
        r == address_of_bytes(b@),
{
    Address { w0: word_at(b, 0), w1: word_at(b, 8), w2: word_at(b, 16), w3: word_at(b, 24) }
}

/// Finds the program address for `seeds` under `program_id`.
pub fn derive(seeds: &Vec<Vec<u8>>, program_id: &Address) -> (r: Option<(Address, u8)>)
    ensures
        r == pda_of(seeds@.map_values(|s: Vec<u8>| s@), *program_id),
{
    let id = address_to_bytes(program_id);
    match try_find_program_address(seeds, &id) {
        Some((k, b)) => Some((address_from_bytes(&k), b)),
        None => None,
    }
}

/// The tag that starts the seeds of an account kind, as bytes.
pub open spec fn tag(name: &str) -> Seq<u8> {
    name.spec_bytes()
}

fn tag_bytes(name: &str) -> (r: Vec<u8>)
    ensures
        r@ == tag(name),
{
    slice_to_vec(name.as_bytes())
}

fn seeds_of_two(first: Vec<u8>, second: Vec<u8>) -> (r: Vec<Vec<u8>>)
    ensures
        r@.map_values(|s: Vec<u8>| s@) == seq![first@, second@],
{
    let mut v: Vec<Vec<u8>> = Vec::new();
    let ghost a = first@;
    let ghost b = second@;
    v.push(first);
    v.push(second);
    assert(v@.map_values(|s: Vec<u8>| s@) =~= seq![a, b]);
    v
}

fn seeds_of_three(first: Vec<u8>, second: Vec<u8>, third: Vec<u8>) -> (r: Vec<Vec<u8>>)
    ensures
        r@.map_values(|s: Vec<u8>| s@) == seq![first@, second@, third@],
{
    let mut v: Vec<Vec<u8>> = Vec::new();
    let ghost a = first@;
    let ghost b = second@;
    let ghost c = third@;
    v.push(first);
    v.push(second);
    v.push(third);
    assert(v@.map_values(|s: Vec<u8>| s@) =~= seq![a, b, c]);
    v
}

/// Program addresses of the accounts this program owns, one seed layout per kind.
pub struct PdaHelper;

impl PdaHelper {
    /// Listing of an item: `"bid-listing"`, item.
    pub fn derive_bid_listing_pda(nft_mint: &Address, program_id: &Address) -> (r: Option<
        (Address, u8),
    >)
        ensures
            r == pda_of(seq![tag("bid-listing"), address_bytes(*nft_mint)], *program_id),
    {
        derive(&seeds_of_two(tag_bytes("bid-listing"), address_to_bytes(nft_mint)), program_id)
    }

    /// Bid on an item: `"bid"`, item, bid id as eight little-endian bytes.
    pub fn derive_bid_pda(nft_mint: &Address, bid_id: u64, program_id: &Address) -> (r: Option<
        (Address, u8),
    >)
        ensures
            r == pda_of(
                seq![tag("bid"), address_bytes(*nft_mint), le_bytes(bid_id)],
                *program_id,
            ),
    {
        let mut id: Vec<u8> = Vec::new();
        push_le_bytes(&mut id, bid_id);
        assert(id@ =~= le_bytes(bid_id));
        derive(&seeds_of_three(tag_bytes("bid"), address_to_bytes(nft_mint), id), program_id)
    }

    /// Escrow of a bid: `"bid-escrow"`, bid account.
    pub fn derive_bid_escrow_pda(bid_pda: &Address, program_id: &Address) -> (r: Option<
        (Address, u8),
    >)
        ensures
            r == pda_of(seq![tag("bid-escrow"), address_bytes(*bid_pda)], *program_id),
    {
        derive(&seeds_of_two(tag_bytes("bid-escrow"), address_to_bytes(bid_pda)), program_id)
    }

    /// Minter record of an item: `"minter-tracker"`, item.
    pub fn derive_minter_tracker_pda(nft_mint: &Address, program_id: &Address) -> (r: Option<
        (Address, u8),
    >)
        ensures
            r == pda_of(seq![tag("minter-tracker"), address_bytes(*nft_mint)], *program_id),
    {
        derive(&seeds_of_two(tag_bytes("minter-tracker"), address_to_bytes(nft_mint)), program_id)
    }

    /// Fee pool of a collection: `"collection-distribution"`, collection.
    pub fn derive_collection_distribution_pda(
        collection_mint: &Address,
        program_id: &Address,
    ) -> (r: Option<(Address, u8)>)
        ensures
            r == pda_of(
                seq![tag("collection-distribution"), address_bytes(*collection_mint)],
                *program_id,
            ),
    {
        derive(
            &seeds_of_two(tag_bytes("collection-distribution"), address_to_bytes(collection_mint)),
            program_id,
        )
    }

    /// Fee claim of an item for a round: `"fee-claim"`, item, round as four
    /// little-endian bytes.
    pub fn derive_fee_claim_pda(
        nft_mint: &Address,
        distribution_round: u32,
        program_id: &Address,
    ) -> (r: Option<(Address, u8)>)
        ensures
            r == pda_of(
                seq![tag("fee-claim"), address_bytes(*nft_mint), le_bytes32(distribution_round)],
                *program_id,
            ),
    {
        let w = distribution_round;
        let mut round: Vec<u8> = Vec::new();
        round.push((w % 0x100) as u8);
        round.push((w / 0x100 % 0x100) as u8);
        round.push((w / 0x10000 % 0x100) as u8);
        round.push((w / 0x1000000 % 0x100) as u8);
        assert(round@ =~= le_bytes32(w));
        derive(&seeds_of_three(tag_bytes("fee-claim"), address_to_bytes(nft_mint), round), program_id)
    }

    /// Pool of a collection: `"pool"`, collection.
    pub fn derive_pool_pda(collection_mint: &Address, program_id: &Address) -> (r: Option<
        (Address, u8),
    >)
        ensures
            r == pda_of(seq![tag("pool"), address_bytes(*collection_mint)], *program_id),
    {
        derive(&seeds_of_two(tag_bytes("pool"), address_to_bytes(collection_mint)), program_id)
    }

    /// Escrow of an item: `"nft-escrow"`, item.
    pub fn derive_nft_escrow_pda(nft_mint: &Address, program_id: &Address) -> (r: Option<
        (Address, u8),
    >)
        ensures
            r == pda_of(seq![tag("nft-escrow"), address_bytes(*nft_mint)], *program_id),
    {
        derive(&seeds_of_two(tag_bytes("nft-escrow"), address_to_bytes(nft_mint)), program_id)
    }
}

} // verus!
