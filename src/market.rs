use vstd::prelude::*;

use crate::bid::{Bid, BidDetails, BidTiming, CancellationReason};
use crate::curve::{bp_share, price, raised_by_bp};
use crate::distribution::{CollectionDistribution, MinterTracker};
use crate::errors::ErrorCode;
use crate::fees::{lemma_sum_amounts_push, sum_amounts};
use crate::listing::BidListing;
use crate::pricing::DynamicPricing;
use crate::pool::{protocol_fee_of, sell_fee_of, BondingCurvePool, MintReceipt, NftEscrow, SellReceipt};
use crate::types::{Address, BidListingStatus, BidStatus, RevenueDistribution};
use crate::validation::{duration_ok, BusinessValidator};

verus! {

/// A minted item: its escrow, its current holder and its minter record.
#[derive(Clone, Copy, Debug)]
pub struct Item {
    pub escrow: NftEscrow,
    pub holder: Address,
    pub tracker: MinterTracker,
    /// Sold back to the pool: its escrow is closed.
    pub sold: bool,
}

/// A listing together with the item it offers and its leading bid.
#[derive(Clone, Copy, Debug)]
pub struct ListingEntry {
    pub listing: BidListing,
    /// Index of the listed item.
    pub item: usize,
    /// Index of the bid that holds the best offer, if it is still active.
    pub leader: Option<usize>,
}

/// A bid together with its listing and the balance of its escrow.
#[derive(Clone, Copy, Debug)]
pub struct BidEntry {
    pub bid: Bid,
    /// Index of the listing bid on.
    pub listing: usize,
    /// Funds held for the bid.
    pub escrow: u64,
}

/// What a placed bid moved.
#[derive(Clone, Copy, Debug)]
pub struct PlaceBidReceipt {
    /// Index of the new bid.
    pub bid_index: usize,
    /// The bidder outbid by this bid and the refund sent back to them.
    pub refund: Option<(Address, u64)>,
}

/// Payouts of an accepted bid.
#[derive(Clone, Copy, Debug)]
pub struct AcceptReceipt {
    pub minter: Address,
    pub minter_share: u64,
    pub platform: Address,
    pub platform_share: u64,
    pub collection_share: u64,
    /// New holder of the item.
    pub buyer: Address,
}

/// One collection's market: the curve pool, its items with their escrows,
/// listings, bids with their escrows, the collection fee pool, and the running
/// totals of value paid into and out of escrow.
#[derive(Clone, Debug)]
pub struct Marketplace {
    pub pool: BondingCurvePool,
    pub distribution: CollectionDistribution,
    pub revenue: RevenueDistribution,
    /// Recipient of the platform's share.
    pub platform: Address,
    pub items: Vec<Item>,
    pub listings: Vec<ListingEntry>,
    pub bids: Vec<BidEntry>,
    /// Everything ever paid into the market.
    pub total_paid_in: u128,
    /// Everything ever paid out of escrow.
    pub total_paid_out: u128,
}

pub proof fn lemma_sum_nonneg(s: Seq<u64>)
    ensures
        sum_amounts(s) >= 0,
    decreases s.len(),
{
    if s.len() > 0 {
        lemma_sum_nonneg(s.drop_last());
    }
}

pub proof fn lemma_sum_update(s: Seq<u64>, i: int, v: u64)
    requires
        0 <= i < s.len(),
    ensures
        sum_amounts(s.update(i, v)) == sum_amounts(s) - s[i] + v,
        s[i] <= sum_amounts(s),
    decreases s.len(),
{
    lemma_sum_nonneg(s.drop_last());
    if i == s.len() - 1 {
        assert(s.update(i, v).drop_last() =~= s.drop_last());
    } else {
        lemma_sum_update(s.drop_last(), i, v);
        assert(s.update(i, v).drop_last() =~= s.drop_last().update(i, v));
    }
}

/// Escrow conservation: in every state that the market's operations reach
/// from a new market, the balances held in item and bid escrows add up to
/// everything paid in less everything paid out.
pub proof fn lemma_escrow_conservation(m: &Marketplace)
    requires
        m.wf(),
    ensures
        sum_amounts(m.item_balances()) + sum_amounts(m.bid_balances()) == m.total_paid_in
            - m.total_paid_out,
{
}

impl Marketplace {
    /// Balances held in the items' escrows.
    pub open spec fn item_balances(&self) -> Seq<u64> {
        self.items@.map_values(|it: Item| it.escrow.lamports)
    }

    /// Balances held in the bids' escrows.
    pub open spec fn bid_balances(&self) -> Seq<u64> {
        self.bids@.map_values(|b: BidEntry| b.escrow)
    }

    /// Everything that sits in escrow.
    pub open spec fn escrow_total(&self) -> int {
        sum_amounts(self.item_balances()) + sum_amounts(self.bid_balances())
    }

    /// Value is conserved: what sits in escrow is what came in less what went out.
    pub open spec fn escrow_conserved(&self) -> bool {
        self.escrow_total() == self.total_paid_in - self.total_paid_out
    }

    pub open spec fn bid_wf(&self, k: int) -> bool {
        let b = self.bids@[k];
        &&& b.listing < self.listings@.len()
        &&& b.bid.outcome.status == BidStatus::Active ==> b.escrow == b.bid.details.amount
        &&& b.bid.outcome.status != BidStatus::Active ==> b.escrow == 0
    }

    pub open spec fn listing_wf(&self, l: int) -> bool {
        let e = self.listings@[l];
        &&& e.item < self.items@.len()
        &&& e.listing.wf()
        &&& e.listing.status == BidListingStatus::Active ==> e.listing.lister
            == self.items@[e.item as int].holder
        &&& e.leader matches Some(k) ==> {
            &&& k < self.bids@.len()
            &&& self.bids@[k as int].listing == l
            &&& self.bids@[k as int].bid.outcome.status == BidStatus::Active
            &&& self.bids@[k as int].bid.details.amount == e.listing.highest_bid
            &&& e.listing.highest_bidder == Some(self.bids@[k as int].bid.details.bidder)
        }
    }

    /// Two listings are not both active on the same item.
    pub open spec fn listings_apart(&self, l1: int, l2: int) -> bool {
        let e1 = self.listings@[l1];
        let e2 = self.listings@[l2];
        e1.listing.status == BidListingStatus::Active && e2.listing.status
            == BidListingStatus::Active ==> e1.item != e2.item
    }

    /// The market's invariant: a migrated pool is inactive, value is
    /// conserved and the pool's escrow total is what the items' escrows hold,
    /// an active bid's escrow holds its amount and a finished bid's escrow is
    /// empty, each listing's leader is an active bid on it that holds the best
    /// offer, an active listing was made by its item's holder, and an item has
    /// at most one active listing.
    pub open spec fn wf(&self) -> bool {
        &&& self.pool.wf()
        &&& self.escrow_conserved()
        &&& self.pool.total_escrowed == sum_amounts(self.item_balances())
        &&& forall|l1: int, l2: int|
            0 <= l1 < self.listings@.len() && 0 <= l2 < self.listings@.len() && l1 != l2
                ==> #[trigger] self.listings_apart(l1, l2)
        &&& forall|k: int| 0 <= k < self.bids@.len() ==> #[trigger] self.bid_wf(k)
        &&& forall|l: int| 0 <= l < self.listings@.len() ==> #[trigger] self.listing_wf(l)
    }

    /// Item `item` has a listing that is still active.
    pub open spec fn has_active_listing(&self, item: usize) -> bool {
        exists|j: int|
            0 <= j < self.listings@.len() && (#[trigger] self.listings@[j]).item == item
                && self.listings@[j].listing.status == BidListingStatus::Active
    }

    /// Whether item `item` has a listing that is still active.
    pub fn is_listed(&self, item: usize) -> (r: bool)
        ensures
            r == self.has_active_listing(item),
    {
        let mut j: usize = 0;
        while j < self.listings.len()
            invariant
                j <= self.listings@.len(),
                forall|i: int|
                    0 <= i < j ==> !((#[trigger] self.listings@[i]).item == item
                        && self.listings@[i].listing.status == BidListingStatus::Active),
            decreases self.listings@.len() - j,
        {
            let e = &self.listings[j];
            if e.item == item && e.listing.status == BidListingStatus::Active {
                return true;
            }
            j = j + 1;
        }
        false
    }

    /// Nothing leaves escrow that did not come in.
    pub proof fn lemma_paid_out_bounded(&self)
        requires
            self.escrow_conserved(),
        ensures
            self.total_paid_out <= self.total_paid_in,
            sum_amounts(self.item_balances()) >= 0,
            sum_amounts(self.bid_balances()) >= 0,
    {
        lemma_sum_nonneg(self.item_balances());
        lemma_sum_nonneg(self.bid_balances());
    }

    /// A market with nothing minted, listed or bid yet.
    pub fn new(
        pool: BondingCurvePool,
        distribution: CollectionDistribution,
        revenue: RevenueDistribution,
        platform: Address,
    ) -> (r: Marketplace)
        ensures
            r.pool == pool,
            r.distribution == distribution,
            r.revenue == revenue,
            r.platform == platform,
            r.items@.len() == 0,
            r.listings@.len() == 0,
            r.bids@.len() == 0,
            r.total_paid_in == 0,
            r.total_paid_out == 0,
            pool.wf() && pool.total_escrowed == 0 ==> r.wf(),
    {
        let r = Marketplace {
            pool,
            distribution,
            revenue,
            platform,
            items: Vec::new(),
            listings: Vec::new(),
            bids: Vec::new(),
            total_paid_in: 0,
            total_paid_out: 0,
        };
        proof {
            assert(r.item_balances() =~= Seq::<u64>::empty());
            assert(r.bid_balances() =~= Seq::<u64>::empty());
        }
        r
    }

    /// Mints the next item to `minter` at the curve price: the price is paid
    /// in, the 1% protocol fee goes straight out to the creator and the rest
    /// stays in the new item's escrow.
    pub fn mint(
        &mut self,
        minter: Address,
        nft_mint: Address,
        current_time: i64,
        escrow_bump: u8,
        tracker_bump: u8,
    ) -> (r: Result<MintReceipt, ErrorCode>)
        requires
            old(self).wf(),
        ensures
            final(self).wf(),
            r is Ok <==> ({
                let p = old(self).pool;
                &&& !p.is_migrated
                &&& p.is_active
                &&& p.current_supply < p.curve_params.max_supply
                &&& p.price_ok()
                &&& p.total_escrowed + (p.spec_current_price() - protocol_fee_of(
                    p.spec_current_price(),
                )) <= u64::MAX
                &&& old(self).total_paid_in <= u128::MAX - u64::MAX
            }),
            r matches Ok(rec) ==> {
                &&& rec.price == price(
                    old(self).pool.base(),
                    old(self).pool.growth(),
                    old(self).pool.current_supply as nat,
                )
                &&& rec.protocol_fee == rec.price / 100
                &&& rec.escrow_amount == rec.price - rec.price / 100
                &&& final(self).items@ == old(self).items@.push(
                    Item {
                        escrow: NftEscrow {
                            nft_mint,
                            lamports: rec.escrow_amount,
                            last_price: rec.price,
                            bump: escrow_bump,
                        },
                        holder: minter,
                        tracker: MinterTracker {
                            nft_mint,
                            original_minter: minter,
                            minted_at: current_time,
                            collection: old(self).pool.collection,
                            total_revenue_earned: 0,
                            sale_count: 0,
                            bump: tracker_bump,
                        },
                        sold: false,
                    },
                )
                &&& final(self).items@.last().escrow.lamports == rec.price - rec.price / 100
                &&& final(self).total_paid_in == old(self).total_paid_in + rec.price
                &&& final(self).total_paid_out == old(self).total_paid_out + rec.protocol_fee
                &&& final(self).pool.current_supply == old(self).pool.current_supply + 1
                &&& final(self).pool.total_escrowed == old(self).pool.total_escrowed
                    + rec.escrow_amount
                &&& final(self).listings@ == old(self).listings@
                &&& final(self).bids@ == old(self).bids@
            },
            r is Err ==> *final(self) == *old(self),
    {
        if self.total_paid_in > u128::MAX - u64::MAX as u128 {
            return Err(ErrorCode::MathOverflow);
        }
        proof {
            self.lemma_paid_out_bounded();
        }
        let receipt = self.pool.mint_item()?;
        let escrow = NftEscrow::open(nft_mint, &receipt, escrow_bump);
        let tracker = MinterTracker {
            nft_mint,
            original_minter: minter,
            minted_at: current_time,
            collection: self.pool.collection,
            total_revenue_earned: 0,
            sale_count: 0,
            bump: tracker_bump,
        };
        let ghost old_items = self.items@;
        self.items.push(Item { escrow, holder: minter, tracker, sold: false });
        self.distribution.increment_nft_count();
        self.total_paid_in = self.total_paid_in + receipt.price as u128;
        self.total_paid_out = self.total_paid_out + receipt.protocol_fee as u128;
        proof {
            assert(self.item_balances() =~= old_items.map_values(|it: Item| it.escrow.lamports).push(
                receipt.escrow_amount,
            ));
            lemma_sum_amounts_push(
                old_items.map_values(|it: Item| it.escrow.lamports),
                receipt.escrow_amount,
            );
            assert forall|l: int| 0 <= l < self.listings@.len() implies #[trigger] self.listing_wf(
                l,
            ) by {
                assert(old(self).listing_wf(l));
            }
            assert forall|k: int| 0 <= k < self.bids@.len() implies #[trigger] self.bid_wf(k) by {
                assert(old(self).bid_wf(k));
            }
            assert forall|l1: int, l2: int|
                0 <= l1 < self.listings@.len() && 0 <= l2 < self.listings@.len() && l1
                    != l2 implies #[trigger] self.listings_apart(l1, l2) by {
                assert(old(self).listings_apart(l1, l2));
            }
        }
        Ok(receipt)
    }

    /// Sells item `item` back to the pool on behalf of its holder. The escrow
    /// account holds the item's escrow balance plus `reserve`, the minimum it
    /// must keep while it exists. The balance pays `sell_fee_bp` to the creator
    /// and the rest to the seller, who also gets the reserve back; the account
    /// is left empty and the item leaves the supply for good.
    pub fn sell_item(
        &mut self,
        item: usize,
        seller: Address,
        reserve: u64,
        sell_fee_bp: u16,
    ) -> (r: Result<SellReceipt, ErrorCode>)
        requires
            old(self).wf(),
        ensures
            final(self).wf(),
            item >= old(self).items@.len() ==> r == Err::<SellReceipt, ErrorCode>(
                ErrorCode::NftNotFound,
            ),
            r is Ok <==> {
                let it = old(self).items@[item as int];
                let p = old(self).pool;
                &&& item < old(self).items@.len()
                &&& !it.sold
                &&& it.holder == seller
                &&& !p.is_migrated
                &&& p.is_active
                &&& it.escrow.lamports + reserve <= u64::MAX
                &&& sell_fee_bp <= 10000
                &&& p.current_supply > 0
            },
            r matches Ok(rec) ==> {
                let it = old(self).items@[item as int];
                &&& rec.fee == sell_fee_of(it.escrow.lamports as nat, sell_fee_bp as nat)
                &&& rec.fee + rec.to_seller == it.escrow.lamports + reserve
                &&& final(self).items@ == old(self).items@.update(
                    item as int,
                    Item { escrow: NftEscrow { lamports: 0, ..it.escrow }, sold: true, ..it },
                )
                &&& final(self).total_paid_out == old(self).total_paid_out + it.escrow.lamports
                &&& final(self).total_paid_in == old(self).total_paid_in
                &&& final(self).pool.current_supply == old(self).pool.current_supply - 1
                &&& final(self).pool.total_escrowed == old(self).pool.total_escrowed
                    - it.escrow.lamports
                &&& final(self).bids@ == old(self).bids@
                &&& final(self).listings@ == old(self).listings@
            },
            r is Err ==> *final(self) == *old(self),
    {
        if item >= self.items.len() || self.items[item].sold {
            return Err(ErrorCode::NftNotFound);
        }
        let mut it = self.items[item];
        if it.holder != seller {
            return Err(ErrorCode::NftNotOwned);
        }
        if it.escrow.lamports > u64::MAX - reserve {
            return Err(ErrorCode::MathOverflow);
        }
        proof {
            self.lemma_paid_out_bounded();
            lemma_sum_update(self.item_balances(), item as int, 0);
        }
        let receipt = self.pool.sell_item(
            &it.escrow,
            it.escrow.lamports + reserve,
            reserve,
            sell_fee_bp,
        )?;
        let ghost old_items = self.items@;
        let released = it.escrow.lamports;
        it.escrow.lamports = 0;
        it.sold = true;
        self.items.set(item, it);
        self.total_paid_out = self.total_paid_out + released as u128;
        proof {
            assert(self.item_balances() =~= old_items.map_values(|i: Item| i.escrow.lamports).update(
                item as int,
                0,
            ));
            assert forall|k: int| 0 <= k < self.bids@.len() implies #[trigger] self.bid_wf(k) by {
                assert(old(self).bid_wf(k));
            }
            assert forall|j: int| 0 <= j < self.listings@.len() implies #[trigger] self.listing_wf(
                j,
            ) by {
                assert(old(self).listing_wf(j));
            }
            assert forall|l1: int, l2: int|
                0 <= l1 < self.listings@.len() && 0 <= l2 < self.listings@.len() && l1
                    != l2 implies #[trigger] self.listings_apart(l1, l2) by {
                assert(old(self).listings_apart(l1, l2));
            }
        }
        Ok(receipt)
    }

    /// Lists item `item` for bids on behalf of its holder; the floor is the
    /// larger of `min_bid` and the curve price raised by the required premium.
    pub fn list_for_bids(
        &mut self,
        item: usize,
        lister: Address,
        min_bid: u64,
        duration: Option<i64>,
        current_time: i64,
        bump: u8,
    ) -> (r: Result<usize, ErrorCode>)
        requires
            old(self).wf(),
        ensures
            final(self).wf(),
            item >= old(self).items@.len() ==> r == Err::<usize, ErrorCode>(
                ErrorCode::NftNotFound,
            ),
            item < old(self).items@.len() && old(self).items@[item as int].sold ==> r == Err::<
                usize,
                ErrorCode,
            >(ErrorCode::NftNotFound),
            item < old(self).items@.len() && !old(self).items@[item as int].sold && old(
                self,
            ).items@[item as int].holder != lister ==> r == Err::<usize, ErrorCode>(
                ErrorCode::NftNotOwned,
            ),
            item < old(self).items@.len() && !old(self).items@[item as int].sold && old(
                self,
            ).items@[item as int].holder == lister && old(self).has_active_listing(item) ==> r
                == Err::<usize, ErrorCode>(ErrorCode::ListingAlreadyExists),
            r is Ok ==> {
                &&& item < old(self).items@.len()
                &&& !old(self).items@[item as int].sold
                &&& old(self).items@[item as int].holder == lister
                &&& !old(self).pool.is_migrated
                &&& old(self).pool.price_ok()
            },
            r is Ok <==> {
                &&& item < old(self).items@.len()
                &&& !old(self).items@[item as int].sold
                &&& old(self).items@[item as int].holder == lister
                &&& !old(self).has_active_listing(item)
                &&& !old(self).pool.is_migrated
                &&& old(self).pool.price_ok()
                &&& raised_by_bp(
                    old(self).pool.spec_current_price(),
                    old(self).pool.pricing_config.minimum_premium_bp as nat,
                ) <= u64::MAX
                &&& (duration matches Some(d) ==> old(self).pool.pricing_config.min_bid_duration
                    <= d <= old(self).pool.pricing_config.max_bid_duration && i64::MIN
                    <= current_time + d <= i64::MAX)
            },
            r matches Ok(l) ==> {
                let e = final(self).listings@[l as int];
                let curve_price = old(self).pool.spec_current_price();
                let floor = raised_by_bp(
                    curve_price,
                    old(self).pool.pricing_config.minimum_premium_bp as nat,
                );
                &&& l == old(self).listings@.len()
                &&& final(self).listings@ == old(self).listings@.push(e)
                &&& e.item == item
                &&& e.leader is None
                &&& e.listing.nft_mint == old(self).items@[item as int].escrow.nft_mint
                &&& e.listing.lister == lister
                &&& e.listing.status == BidListingStatus::Active
                &&& e.listing.highest_bid == 0
                &&& e.listing.min_bid == if min_bid >= floor {
                    min_bid as nat
                } else {
                    floor
                }
                &&& e.listing.current_bonding_curve_price == curve_price
                &&& final(self).items@ == old(self).items@
                &&& final(self).bids@ == old(self).bids@
                &&& final(self).pool == old(self).pool
                &&& final(self).total_paid_in == old(self).total_paid_in
                &&& final(self).total_paid_out == old(self).total_paid_out
            },
            r is Err ==> *final(self) == *old(self),
    {
        if item >= self.items.len() || self.items[item].sold {
            return Err(ErrorCode::NftNotFound);
        }
        let it = self.items[item];
        if it.holder != lister {
            return Err(ErrorCode::NftNotOwned);
        }
        if self.is_listed(item) {
            return Err(ErrorCode::ListingAlreadyExists);
        }
        if self.pool.is_migrated {
            return Err(ErrorCode::AlreadyMigrated);
        }
        let curve_price = self.pool.calculate_current_price()?;
        let mut listing = blank_listing();
        listing.initialize(
            it.escrow.nft_mint,
            lister,
            min_bid,
            curve_price,
            &self.pool.pricing_config,
            current_time,
            duration,
            bump,
        )?;
        let l = self.listings.len();
        let entry = ListingEntry { listing, item, leader: None };
        self.listings.push(entry);
        proof {
            assert forall|j: int| 0 <= j < self.listings@.len() implies #[trigger] self.listing_wf(
                j,
            ) by {
                if j < l {
                    assert(old(self).listing_wf(j));
                }
            }
            assert forall|k: int| 0 <= k < self.bids@.len() implies #[trigger] self.bid_wf(k) by {
                assert(old(self).bid_wf(k));
            }
            assert forall|l1: int, l2: int|
                0 <= l1 < self.listings@.len() && 0 <= l2 < self.listings@.len() && l1
                    != l2 implies #[trigger] self.listings_apart(l1, l2) by {
                if l1 < l && l2 < l {
                    assert(old(self).listings_apart(l1, l2));
                } else if l1 == l {
                    assert(old(self).listings@[l2] == self.listings@[l2]);
                } else {
                    assert(old(self).listings@[l1] == self.listings@[l1]);
                }
            }
        }
        Ok(l)
    }

    /// Closes listing `listing_index`: its lister may cancel it while it is
    /// active, and once it has expired anyone may mark it expired. Bids on it
    /// stay open for their bidders to cancel.
    pub fn close_listing(&mut self, listing_index: usize, caller: Address, current_time: i64) -> (r:
        Result<BidListingStatus, ErrorCode>)
        requires
            old(self).wf(),
        ensures
            final(self).wf(),
            listing_index >= old(self).listings@.len() ==> r == Err::<BidListingStatus, ErrorCode>(
                ErrorCode::ListingNotFound,
            ),
            listing_index < old(self).listings@.len() && old(
                self,
            ).listings@[listing_index as int].listing.status != BidListingStatus::Active ==> r
                == Err::<BidListingStatus, ErrorCode>(ErrorCode::InvalidListingStatus),
            r is Ok <==> ({
                let e = old(self).listings@[listing_index as int].listing;
                &&& listing_index < old(self).listings@.len()
                &&& e.status == BidListingStatus::Active
                &&& (caller == e.lister || e.spec_is_expired(current_time))
            }),
            r matches Ok(st) ==> {
                let e = old(self).listings@[listing_index as int];
                &&& st == if caller == e.listing.lister {
                    BidListingStatus::Cancelled
                } else {
                    BidListingStatus::Expired
                }
                &&& final(self).listings@ == old(self).listings@.update(
                    listing_index as int,
                    ListingEntry { listing: BidListing { status: st, ..e.listing }, ..e },
                )
                &&& final(self).items@ == old(self).items@
                &&& final(self).bids@ == old(self).bids@
                &&& final(self).pool == old(self).pool
                &&& final(self).total_paid_in == old(self).total_paid_in
                &&& final(self).total_paid_out == old(self).total_paid_out
            },
            r is Err ==> *final(self) == *old(self),
    {
        if listing_index >= self.listings.len() {
            return Err(ErrorCode::ListingNotFound);
        }
        let e = self.listings[listing_index];
        if e.listing.status != BidListingStatus::Active {
            return Err(ErrorCode::InvalidListingStatus);
        }
        let status = if caller == e.listing.lister {
            BidListingStatus::Cancelled
        } else if e.listing.is_expired(current_time) {
            BidListingStatus::Expired
        } else {
            return Err(ErrorCode::Unauthorized);
        };
        let listing = BidListing { status, ..e.listing };
        self.listings.set(listing_index, ListingEntry { listing, ..e });
        proof {
            assert forall|k: int| 0 <= k < self.bids@.len() implies #[trigger] self.bid_wf(k) by {
                assert(old(self).bid_wf(k));
            }
            assert forall|j: int| 0 <= j < self.listings@.len() implies #[trigger] self.listing_wf(
                j,
            ) by {
                assert(old(self).listing_wf(j));
            }
            assert forall|l1: int, l2: int|
                0 <= l1 < self.listings@.len() && 0 <= l2 < self.listings@.len() && l1
                    != l2 implies #[trigger] self.listings_apart(l1, l2) by {
                assert(old(self).listings_apart(l1, l2));
            }
            assert(self.item_balances() =~= old(self).item_balances());
            assert(self.bid_balances() =~= old(self).bid_balances());
        }
        Ok(status)
    }

    /// Places a bid of `amount` on listing `listing_index`. The listing must be
    /// active and not expired, the bidder must not hold the item, the amount
    /// must clear the curve price plus the minimum premium and, when an offer
    /// stands, that offer plus the bid increment. The amount goes into the new
    /// bid's escrow; a bid it beats becomes outbid and is refunded in full.
    pub fn place_bid(
        &mut self,
        listing_index: usize,
        bid_id: u64,
        bidder: Address,
        amount: u64,
        duration: Option<i64>,
        current_time: i64,
        bump: u8,
    ) -> (r: Result<PlaceBidReceipt, ErrorCode>)
        requires
            old(self).wf(),
        ensures
            final(self).wf(),
            listing_index >= old(self).listings@.len() ==> r == Err::<PlaceBidReceipt, ErrorCode>(
                ErrorCode::ListingNotFound,
            ),
            listing_index < old(self).listings@.len() && !old(
                self,
            ).listings@[listing_index as int].listing.spec_is_active(current_time) ==> r == Err::<
                PlaceBidReceipt,
                ErrorCode,
            >(ErrorCode::BidListingNotActive),
            listing_index < old(self).listings@.len() && old(
                self,
            ).listings@[listing_index as int].listing.spec_is_active(current_time) && !old(self).items@[old(
                self,
            ).listings@[listing_index as int].item as int].sold && bidder == old(self).items@[old(
                self,
            ).listings@[listing_index as int].item as int].holder ==> r == Err::<
                PlaceBidReceipt,
                ErrorCode,
            >(ErrorCode::CannotBidOnOwnNft),
            listing_index < old(self).listings@.len() && old(
                self,
            ).listings@[listing_index as int].listing.spec_is_active(current_time) && !old(self).items@[old(
                self,
            ).listings@[listing_index as int].item as int].sold && bidder != old(self).items@[old(
                self,
            ).listings@[listing_index as int].item as int].holder && old(self).pool.price_ok()
                && old(self).listings@[listing_index as int].listing.highest_bid == 0
                && raised_by_bp(
                old(self).pool.spec_current_price(),
                old(self).pool.pricing_config.minimum_premium_bp as nat,
            ) <= u64::MAX && amount < raised_by_bp(
                old(self).pool.spec_current_price(),
                old(self).pool.pricing_config.minimum_premium_bp as nat,
            ) ==> r == Err::<PlaceBidReceipt, ErrorCode>(ErrorCode::BidBelowBondingCurve),
            listing_index < old(self).listings@.len() && old(
                self,
            ).listings@[listing_index as int].listing.spec_is_active(current_time) && !old(self).items@[old(
                self,
            ).listings@[listing_index as int].item as int].sold && bidder != old(self).items@[old(
                self,
            ).listings@[listing_index as int].item as int].holder && old(self).pool.price_ok() && ({
                let h = old(self).listings@[listing_index as int].listing.highest_bid;
                let floor = raised_by_bp(
                    old(self).pool.spec_current_price(),
                    old(self).pool.pricing_config.minimum_premium_bp as nat,
                );
                let step = raised_by_bp(
                    h as nat,
                    old(self).pool.pricing_config.bid_increment_bp as nat,
                );
                h > 0 && floor <= u64::MAX && step <= u64::MAX && (amount < floor || amount < step)
            }) ==> r == Err::<PlaceBidReceipt, ErrorCode>(ErrorCode::BidTooLow),
            r is Ok <==> {
                let l = listing_index as int;
                let e = old(self).listings@[l].listing;
                let floor = raised_by_bp(
                    old(self).pool.spec_current_price(),
                    old(self).pool.pricing_config.minimum_premium_bp as nat,
                );
                let step = raised_by_bp(
                    e.highest_bid as nat,
                    old(self).pool.pricing_config.bid_increment_bp as nat,
                );
                &&& listing_index < old(self).listings@.len()
                &&& e.spec_is_active(current_time)
                &&& !old(self).items@[old(self).listings@[l].item as int].sold
                &&& bidder != old(self).items@[old(self).listings@[l].item as int].holder
                &&& old(self).pool.price_ok()
                &&& floor <= u64::MAX
                &&& amount >= floor
                &&& e.highest_bid > 0 ==> step <= u64::MAX && amount >= step
                &&& amount >= e.min_bid
                &&& duration_ok(duration)
                &&& (duration matches Some(d) ==> current_time + d <= i64::MAX)
                &&& e.total_bids < u32::MAX
                &&& old(self).total_paid_in <= u128::MAX - u64::MAX
            },
            r matches Ok(rec) ==> {
                let l = listing_index as int;
                let old_entry = old(self).listings@[l];
                let new_entry = final(self).listings@[l];
                let nb = final(self).bids@[rec.bid_index as int];
                &&& l < old(self).listings@.len()
                &&& old(self).pool.price_ok()
                &&& amount >= raised_by_bp(
                    old(self).pool.spec_current_price(),
                    old(self).pool.pricing_config.minimum_premium_bp as nat,
                )
                &&& old_entry.listing.highest_bid > 0 ==> amount >= raised_by_bp(
                    old_entry.listing.highest_bid as nat,
                    old(self).pool.pricing_config.bid_increment_bp as nat,
                )
                &&& rec.bid_index == old(self).bids@.len()
                &&& final(self).bids@.len() == old(self).bids@.len() + 1
                &&& final(self).listings@.len() == old(self).listings@.len()
                &&& nb.listing == listing_index
                &&& nb.escrow == amount
                &&& nb.bid.bid_id == bid_id
                &&& nb.bid.details.bidder == bidder
                &&& nb.bid.details.amount == amount
                &&& nb.bid.outcome.status == BidStatus::Active
                &&& new_entry.listing.highest_bid >= old_entry.listing.highest_bid
                &&& new_entry.listing.highest_bid == if amount > old_entry.listing.highest_bid {
                    amount
                } else {
                    old_entry.listing.highest_bid
                }
                &&& final(self).total_paid_in == old(self).total_paid_in + amount
                &&& final(self).listings@ == old(self).listings@.update(
                    l,
                    ListingEntry {
                        listing: BidListing {
                            highest_bid: if amount > old_entry.listing.highest_bid {
                                amount
                            } else {
                                old_entry.listing.highest_bid
                            },
                            highest_bidder: if amount > old_entry.listing.highest_bid {
                                Some(bidder)
                            } else {
                                old_entry.listing.highest_bidder
                            },
                            total_bids: (old_entry.listing.total_bids + 1) as u32,
                            ..old_entry.listing.spec_refreshed(
                                old(self).pool.spec_current_price(),
                                old(self).pool.pricing_config.minimum_premium_bp,
                                current_time,
                            )
                        },
                        item: old_entry.item,
                        leader: if amount > old_entry.listing.highest_bid {
                            Some(rec.bid_index)
                        } else {
                            old_entry.leader
                        },
                    },
                )
                &&& forall|j: int|
                    0 <= j < old(self).bids@.len() && !(amount > old_entry.listing.highest_bid
                        && old_entry.leader == Some(j as usize)) ==> #[trigger] final(self).bids@[j]
                        == old(self).bids@[j]
                &&& match old_entry.leader {
                    Some(k) => if amount > old_entry.listing.highest_bid {
                        &&& final(self).bids@[k as int] == (BidEntry {
                            bid: Bid {
                                outcome: crate::bid::BidOutcome {
                                    status: BidStatus::Outbid,
                                    ..old(self).bids@[k as int].bid.outcome
                                },
                                ..old(self).bids@[k as int].bid
                            },
                            escrow: 0,
                            ..old(self).bids@[k as int]
                        })
                        &&& rec.refund == Some(
                            (
                                old(self).bids@[k as int].bid.details.bidder,
                                old(self).bids@[k as int].bid.details.amount,
                            ),
                        )
                        &&& final(self).total_paid_out == old(self).total_paid_out + old(
                            self,
                        ).bids@[k as int].bid.details.amount
                    } else {
                        &&& rec.refund is None
                        &&& final(self).total_paid_out == old(self).total_paid_out
                    },
                    None => {
                        &&& rec.refund is None
                        &&& final(self).total_paid_out == old(self).total_paid_out
                    },
                }
                &&& final(self).items@ == old(self).items@
                &&& final(self).pool == old(self).pool
            },
            r is Err ==> *final(self) == *old(self),
    {
        if listing_index >= self.listings.len() {
            return Err(ErrorCode::ListingNotFound);
        }
        let entry = self.listings[listing_index];
        if !entry.listing.is_active(current_time) {
            return Err(ErrorCode::BidListingNotActive);
        }
        proof {
            assert(old(self).listing_wf(listing_index as int));
        }
        if self.items[entry.item].sold {
            return Err(ErrorCode::NftNotFound);
        }
        if bidder == self.items[entry.item].holder {
            return Err(ErrorCode::CannotBidOnOwnNft);
        }
        DynamicPricing::validate_dynamic_bid_amount(
            amount,
            &self.pool,
            entry.listing.highest_bid,
            self.pool.pricing_config.minimum_premium_bp,
            self.pool.pricing_config.bid_increment_bp,
        )?;
        let curve_price = DynamicPricing::get_current_bonding_curve_price(&self.pool)?;
        let d = BusinessValidator::validate_duration_seconds(duration)?;
        let expires_at: i64 = if d > 0 {
            match current_time.checked_add(d) {
                Some(t) => t,
                None => {
                    return Err(ErrorCode::MathOverflow);
                },
            }
        } else {
            0
        };
        let mut listing = entry.listing;
        if curve_price != listing.current_bonding_curve_price {
            listing.update_minimum_bid(curve_price, &self.pool.pricing_config, current_time)?;
        }
        proof {
            crate::curve::lemma_raised_at_least(
                self.pool.spec_current_price(),
                self.pool.pricing_config.minimum_premium_bp as nat,
            );
        }
        listing.place_bid(bidder, amount, &self.pool.pricing_config, current_time)?;
        if self.total_paid_in > u128::MAX - u64::MAX as u128 {
            return Err(ErrorCode::MathOverflow);
        }
        let details = match BidDetails::new(entry.listing.nft_mint, bidder, amount, curve_price) {
            Ok(v) => v,
            Err(e) => {
                return Err(e);
            },
        };
        let timing = BidTiming { created_at: current_time, expires_at, duration: d };
        let bid = Bid::new(bid_id, details, timing, bump);
        proof {
            self.lemma_paid_out_bounded();
        }
        let ghost old_bids = self.bids@;
        let new_index = self.bids.len();
        let mut refund: Option<(Address, u64)> = None;
        let mut leader = entry.leader;
        if amount > entry.listing.highest_bid {
            match entry.leader {
                Some(k) => {
                    proof {
                        assert(old(self).listing_wf(listing_index as int));
                        assert(old(self).bid_wf(k as int));
                        lemma_sum_update(self.bid_balances(), k as int, 0);
                    }
                    let mut prev = self.bids[k];
                    let refunded = prev.escrow;
                    let _ = prev.bid.outcome.outbid();
                    prev.escrow = 0;
                    self.bids.set(k, prev);
                    self.total_paid_out = self.total_paid_out + refunded as u128;
                    refund = Some((prev.bid.details.bidder, refunded));
                    proof {
                        assert(self.bid_balances() =~= old_bids.map_values(|b: BidEntry| b.escrow).update(
                            k as int,
                            0,
                        ));
                    }
                },
                None => {},
            }
            leader = Some(new_index);
        }
        let ghost mid_bids = self.bids@;
        self.bids.push(BidEntry { bid, listing: listing_index, escrow: amount });
        self.total_paid_in = self.total_paid_in + amount as u128;
        self.listings.set(listing_index, ListingEntry { listing, item: entry.item, leader });
        proof {
            assert(self.bid_balances() =~= mid_bids.map_values(|b: BidEntry| b.escrow).push(amount));
            lemma_sum_amounts_push(mid_bids.map_values(|b: BidEntry| b.escrow), amount);
            assert forall|k: int| 0 <= k < self.bids@.len() implies #[trigger] self.bid_wf(k) by {
                if k < old_bids.len() {
                    assert(old(self).bid_wf(k));
                }
            }
            assert forall|j: int| 0 <= j < self.listings@.len() implies #[trigger] self.listing_wf(
                j,
            ) by {
                assert(old(self).listing_wf(j));
                if j != listing_index {
                    let e = self.listings@[j];
                    if let Some(kk) = e.leader {
                        assert(old(self).bids@[kk as int].listing == j);
                        assert(kk != new_index);
                    }
                }
            }
            assert forall|l1: int, l2: int|
                0 <= l1 < self.listings@.len() && 0 <= l2 < self.listings@.len() && l1
                    != l2 implies #[trigger] self.listings_apart(l1, l2) by {
                assert(old(self).listings_apart(l1, l2));
            }
            assert(self.item_balances() =~= old(self).item_balances());
        }
        Ok(PlaceBidReceipt { bid_index: new_index, refund })
    }

    /// Cancels bid `bid_index` on behalf of `caller`, who must be its bidder
    /// unless the bid has expired. Only an active or outbid bid can be
    /// cancelled; its escrow goes back to the bidder in full.
    pub fn cancel_bid(&mut self, bid_index: usize, caller: Address, current_time: i64) -> (r:
        Result<u64, ErrorCode>)
        requires
            old(self).wf(),
        ensures
            final(self).wf(),
            bid_index >= old(self).bids@.len() ==> r == Err::<u64, ErrorCode>(
                ErrorCode::BidNotFound,
            ),
            bid_index < old(self).bids@.len() ==> ({
                let b = old(self).bids@[bid_index as int];
                let cancellable = b.bid.outcome.status == BidStatus::Active || b.bid.outcome.status
                    == BidStatus::Outbid;
                let allowed = b.bid.details.bidder == caller || b.bid.spec_is_expired(
                    current_time,
                );
                &&& !cancellable ==> r == Err::<u64, ErrorCode>(ErrorCode::InvalidBidStatus)
                &&& cancellable && !allowed ==> r == Err::<u64, ErrorCode>(
                    ErrorCode::Unauthorized,
                )
                &&& cancellable && allowed ==> r == Ok::<u64, ErrorCode>(b.escrow)
            }),
            r matches Ok(refund) ==> {
                let k = bid_index as int;
                let l = old(self).bids@[k].listing as int;
                &&& final(self).bids@.len() == old(self).bids@.len()
                &&& final(self).bids@[k].bid.outcome.status == BidStatus::Cancelled
                &&& final(self).bids@[k].escrow == 0
                &&& final(self).total_paid_out == old(self).total_paid_out + refund
                &&& final(self).total_paid_in == old(self).total_paid_in
                &&& final(self).listings@.len() == old(self).listings@.len()
                &&& final(self).listings@[l].listing == old(self).listings@[l].listing
                &&& final(self).items@ == old(self).items@
                &&& final(self).pool == old(self).pool
            },
            r is Err ==> *final(self) == *old(self),
    {
        if bid_index >= self.bids.len() {
            return Err(ErrorCode::BidNotFound);
        }
        let mut entry = self.bids[bid_index];
        if entry.bid.outcome.status != BidStatus::Active && entry.bid.outcome.status
            != BidStatus::Outbid {
            return Err(ErrorCode::InvalidBidStatus);
        }
        let expired = entry.bid.is_expired(current_time);
        if entry.bid.details.bidder != caller && !expired {
            return Err(ErrorCode::Unauthorized);
        }
        let reason = if entry.bid.details.bidder == caller {
            CancellationReason::UserCancelled
        } else {
            CancellationReason::Expired
        };
        proof {
            self.lemma_paid_out_bounded();
            assert(old(self).bid_wf(bid_index as int));
            lemma_sum_update(self.bid_balances(), bid_index as int, 0);
        }
        let ghost old_bids = self.bids@;
        let refund = entry.escrow;
        let _ = entry.bid.outcome.cancel(reason, current_time);
        entry.escrow = 0;
        self.bids.set(bid_index, entry);
        self.total_paid_out = self.total_paid_out + refund as u128;
        let l = entry.listing;
        let le = self.listings[l];
        let is_leader = match le.leader {
            Some(k) => k == bid_index,
            None => false,
        };
        if is_leader {
            self.listings.set(l, ListingEntry { leader: None, ..le });
        }
        proof {
            assert(self.bid_balances() =~= old_bids.map_values(|b: BidEntry| b.escrow).update(
                bid_index as int,
                0,
            ));
            assert forall|k: int| 0 <= k < self.bids@.len() implies #[trigger] self.bid_wf(k) by {
                assert(old(self).bid_wf(k));
            }
            assert forall|j: int| 0 <= j < self.listings@.len() implies #[trigger] self.listing_wf(
                j,
            ) by {
                assert(old(self).listing_wf(j));
            }
            assert forall|l1: int, l2: int|
                0 <= l1 < self.listings@.len() && 0 <= l2 < self.listings@.len() && l1
                    != l2 implies #[trigger] self.listings_apart(l1, l2) by {
                assert(old(self).listings_apart(l1, l2));
            }
            assert(self.item_balances() =~= old(self).item_balances());
        }
        Ok(refund)
    }

    /// Accepts bid `bid_index` on behalf of `caller`, who must be the item's
    /// original minter. The bid must be active, unexpired and the listing's
    /// best offer. Its escrow is paid out in full: the platform and the
    /// collection's fee pool get their shares, the minter the rest; the item
    /// goes to the bidder and bid and listing become accepted.
    pub fn accept_bid(&mut self, bid_index: usize, caller: Address, current_time: i64) -> (r:
        Result<AcceptReceipt, ErrorCode>)
        requires
            old(self).wf(),
        ensures
            final(self).wf(),
            bid_index >= old(self).bids@.len() ==> r == Err::<AcceptReceipt, ErrorCode>(
                ErrorCode::BidNotFound,
            ),
            r is Ok <==> {
                let k = bid_index as int;
                let b = old(self).bids@[k];
                let e = old(self).listings@[b.listing as int];
                let amount = b.bid.details.amount;
                &&& bid_index < old(self).bids@.len()
                &&& !old(self).items@[e.item as int].sold
                &&& caller == old(self).items@[e.item as int].tracker.original_minter
                &&& b.bid.outcome.status == BidStatus::Active
                &&& !b.bid.spec_is_expired(current_time)
                &&& e.leader == Some(bid_index)
                &&& e.listing.status == BidListingStatus::Active
                &&& !e.listing.spec_is_expired(current_time)
                &&& old(self).revenue.is_complete()
                &&& old(self).pool.total_platform_fees + bp_share(
                    amount as nat,
                    old(self).revenue.platform_percentage as nat,
                ) <= u64::MAX
            },
            r matches Ok(rec) ==> {
                let k = bid_index as int;
                let b = old(self).bids@[k];
                let l = b.listing as int;
                let i = old(self).listings@[l].item as int;
                let amount = b.bid.details.amount;
                &&& k < old(self).bids@.len()
                &&& caller == old(self).items@[i].tracker.original_minter
                &&& b.bid.outcome.status == BidStatus::Active
                &&& !b.bid.spec_is_expired(current_time)
                &&& old(self).listings@[l].leader == Some(bid_index)
                &&& old(self).revenue.is_complete()
                &&& rec.platform_share == bp_share(
                    amount as nat,
                    old(self).revenue.platform_percentage as nat,
                )
                &&& rec.collection_share == bp_share(
                    amount as nat,
                    old(self).revenue.collection_percentage as nat,
                )
                &&& rec.minter_share + rec.platform_share + rec.collection_share == amount
                &&& rec.minter == old(self).items@[i].tracker.original_minter
                &&& rec.platform == old(self).platform
                &&& rec.buyer == b.bid.details.bidder
                &&& final(self).items@ == old(self).items@.update(
                    i,
                    Item {
                        holder: b.bid.details.bidder,
                        tracker: MinterTracker {
                            total_revenue_earned: crate::distribution::sat_add(
                                old(self).items@[i].tracker.total_revenue_earned as nat,
                                rec.minter_share as nat,
                            ) as u64,
                            sale_count: if old(self).items@[i].tracker.sale_count == u32::MAX {
                                u32::MAX
                            } else {
                                (old(self).items@[i].tracker.sale_count + 1) as u32
                            },
                            ..old(self).items@[i].tracker
                        },
                        ..old(self).items@[i]
                    },
                )
                &&& final(self).bids@[k].bid.outcome.status == BidStatus::Accepted
                &&& final(self).bids@[k].escrow == 0
                &&& final(self).listings@[l].listing.status == BidListingStatus::Accepted
                &&& final(self).listings@[l].listing.highest_bid == old(
                    self,
                ).listings@[l].listing.highest_bid
                &&& final(self).total_paid_out == old(self).total_paid_out + amount
                &&& final(self).total_paid_in == old(self).total_paid_in
                &&& final(self).pool.total_platform_fees == old(self).pool.total_platform_fees
                    + rec.platform_share
                &&& final(self).distribution.accumulated_fees == crate::distribution::sat_add(
                    old(self).distribution.accumulated_fees as nat,
                    rec.collection_share as nat,
                )
            },
            r is Err ==> *final(self) == *old(self),
    {
        if bid_index >= self.bids.len() {
            return Err(ErrorCode::BidNotFound);
        }
        let mut entry = self.bids[bid_index];
        proof {
            assert(old(self).bid_wf(bid_index as int));
        }
        let l = entry.listing;
        let le = self.listings[l];
        proof {
            assert(old(self).listing_wf(l as int));
        }
        let item_index = le.item;
        let mut item = self.items[item_index];
        if item.sold {
            return Err(ErrorCode::NftNotFound);
        }
        if caller != item.tracker.original_minter {
            return Err(ErrorCode::Unauthorized);
        }
        if entry.bid.outcome.status != BidStatus::Active {
            return Err(ErrorCode::InvalidBidStatus);
        }
        if entry.bid.is_expired(current_time) {
            return Err(ErrorCode::BidExpired);
        }
        let is_leader = match le.leader {
            Some(k) => k == bid_index,
            None => false,
        };
        if !is_leader {
            return Err(ErrorCode::InvalidBidAmount);
        }
        let amount = entry.bid.details.amount;
        let mut listing = le.listing;
        listing.accept_bid(amount, current_time)?;
        let (minter_share, platform_share, collection_share) = self.revenue.calculate_payouts(
            amount,
        )?;
        let mut pool = self.pool;
        pool.add_platform_fees(platform_share)?;
        proof {
            self.lemma_paid_out_bounded();
            lemma_sum_update(self.bid_balances(), bid_index as int, 0);
        }
        let ghost old_bids = self.bids@;
        let ghost old_items = self.items@;
        let _ = entry.bid.outcome.accept(current_time);
        entry.escrow = 0;
        self.bids.set(bid_index, entry);
        self.total_paid_out = self.total_paid_out + amount as u128;
        self.listings.set(l, ListingEntry { listing, item: item_index, leader: None });
        self.distribution.add_fees(collection_share);
        self.pool = pool;
        let buyer = entry.bid.details.bidder;
        item.holder = buyer;
        item.tracker.add_revenue(minter_share);
        self.items.set(item_index, item);
        proof {
            assert(self.bid_balances() =~= old_bids.map_values(|b: BidEntry| b.escrow).update(
                bid_index as int,
                0,
            ));
            assert(self.item_balances() =~= old_items.map_values(|it: Item| it.escrow.lamports));
            assert forall|k: int| 0 <= k < self.bids@.len() implies #[trigger] self.bid_wf(k) by {
                assert(old(self).bid_wf(k));
            }
            assert forall|j: int| 0 <= j < self.listings@.len() implies #[trigger] self.listing_wf(
                j,
            ) by {
                assert(old(self).listing_wf(j));
                if j != l {
                    assert(old(self).listings_apart(j, l as int));
                }
            }
            assert forall|l1: int, l2: int|
                0 <= l1 < self.listings@.len() && 0 <= l2 < self.listings@.len() && l1
                    != l2 implies #[trigger] self.listings_apart(l1, l2) by {
                assert(old(self).listings_apart(l1, l2));
            }
        }
        Ok(
            AcceptReceipt {
                minter: item.tracker.original_minter,
                minter_share,
                platform: self.platform,
                platform_share,
                collection_share,
                buyer,
            },
        )
    }
}

/// A listing record before it is opened.
fn blank_listing() -> (r: BidListing)
    ensures
        r.wf(),
{
    BidListing {
        nft_mint: Address::zero(),
        lister: Address::zero(),
        min_bid: 0,
        highest_bid: 0,
        highest_bidder: None,
        total_bids: 0,
        status: BidListingStatus::Active,
        created_at: 0,
        expires_at: 0,
        last_price_update: 0,
        bonding_curve_price_at_listing: 0,
        current_bonding_curve_price: 0,
        required_premium_bp: 0,
        bump: 0,
    }
}

} // verus!
