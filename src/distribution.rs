use vstd::prelude::*;

use crate::errors::ErrorCode;
use crate::types::Address;

verus! {

/// A collection's pool of secondary-sale fees, shared out per item in rounds.
#[derive(Clone, Copy, Debug)]
pub struct CollectionDistribution {
    pub collection: Address,
    /// Items that share in the pool.
    pub total_nfts: u32,
    /// Fees not yet handed out.
    pub accumulated_fees: u64,
    /// Time of the last round (unix seconds).
    pub last_distribution: i64,
    /// Fees handed out over all rounds.
    pub total_distributed: u64,
    /// Rounds so far; the current round's number.
    pub distribution_count: u32,
    /// Per-item amount of the current round.
    pub last_per_nft_amount: u64,
    /// Claims paid in the current round.
    pub claims_this_round: u32,
    pub bump: u8,
}

/// Record that an item's holder took its share of one round.
#[derive(Clone, Copy, Debug)]
pub struct NftHolderFeeClaim {
    pub nft_mint: Address,
    pub holder: Address,
    pub distribution_round: u32,
    pub amount_claimed: u64,
    pub claimed_at: i64,
    pub bump: u8,
}

/// Every fee claim made so far, at most one per item and round.
#[derive(Clone, Debug)]
pub struct FeeClaims {
    pub claims: Vec<NftHolderFeeClaim>,
}

/// Original minter of an item, and what resales have earned them.
#[derive(Clone, Copy, Debug)]
pub struct MinterTracker {
    pub nft_mint: Address,
    pub original_minter: Address,
    pub minted_at: i64,
    pub collection: Address,
    /// Revenue earned from resales.
    pub total_revenue_earned: u64,
    /// Resales of the item.
    pub sale_count: u32,
    pub bump: u8,
}

/// `a + b`, or the largest `u64` where that overflows.
pub open spec fn sat_add(a: nat, b: nat) -> nat {
    if a + b > u64::MAX {
        u64::MAX as nat
    } else {
        a + b
    }
}

impl CollectionDistribution {
    /// Adds a sale's collection share; saturates rather than overflowing.
    pub fn add_fees(&mut self, amount: u64)
        ensures
            *final(self) == (CollectionDistribution {
                accumulated_fees: sat_add(old(self).accumulated_fees as nat, amount as nat) as u64,
                ..*old(self)
            }),
    {
        self.accumulated_fees = if self.accumulated_fees > u64::MAX - amount {
            u64::MAX
        } else {
            self.accumulated_fees + amount
        };
    }

    /// The accumulated fees split evenly over the items, rounded down (0 with no items).
    pub fn get_per_nft_distribution(&self) -> (r: u64)
        ensures
            self.total_nfts == 0 ==> r == 0,
            self.total_nfts > 0 ==> r == self.accumulated_fees / (self.total_nfts as u64),
    {
        if self.total_nfts == 0 {
            return 0;
        }
        self.accumulated_fees / (self.total_nfts as u64)
    }

    /// Opens a new round: each item's share is the accumulated fees divided by
    /// the item count, rounded down; the shares leave the pool and the
    /// remainder stays for the next round. Returns the per-item share.
    pub fn distribute_fees(&mut self, current_timestamp: i64) -> (r: Result<u64, ErrorCode>)
        ensures
            old(self).accumulated_fees == 0 ==> r == Err::<u64, ErrorCode>(
                ErrorCode::InsufficientCollectionFees,
            ),
            old(self).accumulated_fees > 0 && old(self).total_nfts == 0 ==> r == Err::<
                u64,
                ErrorCode,
            >(ErrorCode::InvalidAmount),
            ({
                let per = (old(self).accumulated_fees as int) / (old(self).total_nfts as int);
                let moved = per * old(self).total_nfts;
                &&& r is Ok <==> (old(self).accumulated_fees > 0 && old(self).total_nfts > 0 && old(
                    self,
                ).total_distributed + moved <= u64::MAX && old(self).distribution_count
                    < u32::MAX)
                &&& r is Ok ==> r == Ok::<u64, ErrorCode>(per as u64) && *final(self) == (
                CollectionDistribution {
                    accumulated_fees: (old(self).accumulated_fees - moved) as u64,
                    total_distributed: (old(self).total_distributed + moved) as u64,
                    distribution_count: (old(self).distribution_count + 1) as u32,
                    last_distribution: current_timestamp,
                    last_per_nft_amount: per as u64,
                    claims_this_round: 0,
                    ..*old(self)
                })
                &&& 0 <= old(self).accumulated_fees - moved < old(self).total_nfts || r is Err
            }),
            r is Err ==> *final(self) == *old(self),
    {
        if self.accumulated_fees == 0 {
            return Err(ErrorCode::InsufficientCollectionFees);
        }
        if self.total_nfts == 0 {
            return Err(ErrorCode::InvalidAmount);
        }
        let n = self.total_nfts as u64;
        let per_nft_amount = self.accumulated_fees / n;
        proof {
            vstd::arithmetic::div_mod::lemma_fundamental_div_mod(
                self.accumulated_fees as int,
                n as int,
            );
            vstd::arithmetic::div_mod::lemma_mod_bound(self.accumulated_fees as int, n as int);
            assert(per_nft_amount * n == n * per_nft_amount) by (nonlinear_arith);
        }
        let moved = per_nft_amount * n;
        if self.total_distributed > u64::MAX - moved || self.distribution_count == u32::MAX {
            return Err(ErrorCode::MathOverflow);
        }
        self.accumulated_fees = self.accumulated_fees - moved;
        self.total_distributed = self.total_distributed + moved;
        self.distribution_count = self.distribution_count + 1;
        self.last_distribution = current_timestamp;
        self.last_per_nft_amount = per_nft_amount;
        self.claims_this_round = 0;
        Ok(per_nft_amount)
    }

    /// One more item shares in the pool; saturates rather than overflowing.
    pub fn increment_nft_count(&mut self)
        ensures
            *final(self) == (CollectionDistribution {
                total_nfts: if old(self).total_nfts == u32::MAX {
                    u32::MAX
                } else {
                    (old(self).total_nfts + 1) as u32
                },
                ..*old(self)
            }),
    {
        if self.total_nfts < u32::MAX {
            self.total_nfts = self.total_nfts + 1;
        }
    }

    /// The collection's 1% of a sale, rounded down.
    pub fn get_collection_share(&self, total_amount: u64) -> (r: u64)
        ensures
            r == total_amount / 100,
    {
        total_amount / 100
    }
}

impl FeeClaims {
    pub open spec fn has_claim(&self, nft_mint: Address, round: u32) -> bool {
        exists|i: int|
            0 <= i < self.claims@.len() && (#[trigger] self.claims@[i]).nft_mint == nft_mint
                && self.claims@[i].distribution_round == round
    }

    /// No claims yet.
    pub fn new() -> (r: FeeClaims)
        ensures
            r.claims@.len() == 0,
    {
        FeeClaims { claims: Vec::new() }
    }

    /// Whether the holder of `nft_mint` already took its share of `round`.
    pub fn has_claimed(&self, nft_mint: &Address, round: u32) -> (r: bool)
        ensures
            r == self.has_claim(*nft_mint, round),
    {
        let mut i: usize = 0;
        while i < self.claims.len()
            invariant
                i <= self.claims@.len(),
                forall|j: int|
                    0 <= j < i ==> !((#[trigger] self.claims@[j]).nft_mint == *nft_mint
                        && self.claims@[j].distribution_round == round),
            decreases self.claims@.len() - i,
        {
            let c = &self.claims[i];
            if c.nft_mint == *nft_mint && c.distribution_round == round {
                return true;
            }
            i = i + 1;
        }
        false
    }

    /// Pays the holder of `nft_mint` its share of `round`, which must be the
    /// round just distributed, at most once per item and round and at most
    /// once per item of the collection. Returns the amount paid.
    pub fn claim(
        &mut self,
        distribution: &mut CollectionDistribution,
        nft_mint: Address,
        holder: Address,
        round: u32,
        current_timestamp: i64,
        bump: u8,
    ) -> (r: Result<u64, ErrorCode>)
        ensures
            old(distribution).distribution_count == 0 || round != old(
                distribution,
            ).distribution_count ==> r == Err::<u64, ErrorCode>(ErrorCode::InvalidAmount),
            old(self).has_claim(nft_mint, round) ==> r is Err,
            r is Ok <==> {
                &&& old(distribution).distribution_count > 0
                &&& round == old(distribution).distribution_count
                &&& !old(self).has_claim(nft_mint, round)
                &&& old(distribution).claims_this_round < old(distribution).total_nfts
                &&& old(distribution).last_per_nft_amount > 0
            },
            r is Ok ==> {
                &&& r == Ok::<u64, ErrorCode>(old(distribution).last_per_nft_amount)
                &&& final(self).claims@ == old(self).claims@.push(
                    NftHolderFeeClaim {
                        nft_mint,
                        holder,
                        distribution_round: round,
                        amount_claimed: old(distribution).last_per_nft_amount,
                        claimed_at: current_timestamp,
                        bump,
                    },
                )
                &&& final(self).has_claim(nft_mint, round)
                &&& *final(distribution) == (CollectionDistribution {
                    claims_this_round: (old(distribution).claims_this_round + 1) as u32,
                    ..*old(distribution)
                })
            },
            r is Err ==> *final(self) == *old(self) && *final(distribution) == *old(distribution),
    {
        if distribution.distribution_count == 0 || round != distribution.distribution_count {
            return Err(ErrorCode::InvalidAmount);
        }
        if self.has_claimed(&nft_mint, round) {
            return Err(ErrorCode::InvalidAmount);
        }
        if distribution.claims_this_round >= distribution.total_nfts {
            return Err(ErrorCode::InsufficientCollectionFees);
        }
        let amount = distribution.last_per_nft_amount;
        if amount == 0 {
            return Err(ErrorCode::InsufficientCollectionFees);
        }
        let record = NftHolderFeeClaim {
            nft_mint,
            holder,
            distribution_round: round,
            amount_claimed: amount,
            claimed_at: current_timestamp,
            bump,
        };
        self.claims.push(record);
        distribution.claims_this_round = distribution.claims_this_round + 1;
        proof {
            assert(self.claims@[self.claims@.len() - 1] == record);
        }
        Ok(amount)
    }
}

impl MinterTracker {
    /// Records one resale earning `amount`; both counters saturate.
    pub fn add_revenue(&mut self, amount: u64)
        ensures
            *final(self) == (MinterTracker {
                total_revenue_earned: sat_add(
                    old(self).total_revenue_earned as nat,
                    amount as nat,
                ) as u64,
                sale_count: if old(self).sale_count == u32::MAX {
                    u32::MAX
                } else {
                    (old(self).sale_count + 1) as u32
                },
                ..*old(self)
            }),
    {
        self.total_revenue_earned = if self.total_revenue_earned > u64::MAX - amount {
            u64::MAX
        } else {
            self.total_revenue_earned + amount
        };
        if self.sale_count < u32::MAX {
            self.sale_count = self.sale_count + 1;
        }
    }

    /// The minter's 95% of a sale, rounded down; the product saturates.
    pub fn get_minter_share(&self, total_amount: u64) -> (r: u64)
        ensures
            total_amount * 95 <= u64::MAX ==> r == total_amount * 95 / 100,
            total_amount * 95 > u64::MAX ==> r == u64::MAX / 100,
    {
        if total_amount > u64::MAX / 95 {
            u64::MAX / 100
        } else {
            total_amount * 95 / 100
        }
    }
}

} // verus!
