use vstd::prelude::*;

use crate::curve::{cap_within, market_cap, price, price_fits, raised_by_bp, valid_curve};
use crate::curve::{raise_by_bp, BondingCurve};
use crate::errors::ErrorCode;
use crate::types::{Address, BondingCurveParams, DynamicPricingConfig};

verus! {

/// Per-collection record: curve parameters, supply and value counters, and the
/// flags that say whether the collection still trades on its curve.
#[derive(Clone, Copy, Debug)]
pub struct BondingCurvePool {
    /// Collection this pool manages.
    pub collection: Address,
    /// Shape of the bonding curve.
    pub curve_params: BondingCurveParams,
    /// Premium, increment and duration rules for bids.
    pub pricing_config: DynamicPricingConfig,
    /// Items currently minted and not sold back.
    pub current_supply: u32,
    /// Sum of the balances held in the items' escrows.
    pub total_escrowed: u64,
    /// Platform fees collected so far.
    pub total_platform_fees: u64,
    /// Creator of the pool, who receives protocol and sell fees.
    pub creator: Address,
    /// Whether minting and selling are open.
    pub is_active: bool,
    /// Whether the collection has moved to an outside marketplace.
    pub is_migrated: bool,
    /// Creation time (unix seconds).
    pub created_at: i64,
    /// Migration time, once migrated.
    pub migrated_at: Option<i64>,
    /// Seed bump of the pool's program address.
    pub bump: u8,
}

/// Amounts settled when an item is minted.
#[derive(Clone, Copy, Debug)]
pub struct MintReceipt {
    /// Curve price paid by the minter.
    pub price: u64,
    /// 1% protocol fee routed to the collection creator.
    pub protocol_fee: u64,
    /// What stays in the item's escrow.
    pub escrow_amount: u64,
}

/// Amounts settled when an item is sold back to the pool.
#[derive(Clone, Copy, Debug)]
pub struct SellReceipt {
    /// Sell fee paid to the collection creator.
    pub fee: u64,
    /// Paid to the seller: the escrow less the fee, plus the reserve.
    pub to_seller: u64,
}

/// Escrow record of one minted item: what it holds and the price it was minted at.
#[derive(Clone, Copy, Debug)]
pub struct NftEscrow {
    pub nft_mint: Address,
    /// Balance held for the item, net of the protocol fee.
    pub lamports: u64,
    /// Price at the last action on the item.
    pub last_price: u64,
    pub bump: u8,
}

impl NftEscrow {
    /// The escrow opened by a mint.
    pub fn open(nft_mint: Address, receipt: &MintReceipt, bump: u8) -> (r: NftEscrow)
        ensures
            r.nft_mint == nft_mint,
            r.lamports == receipt.escrow_amount,
            r.last_price == receipt.price,
            r.bump == bump,
    {
        NftEscrow { nft_mint, lamports: receipt.escrow_amount, last_price: receipt.price, bump }
    }
}

/// Figures for display.
#[derive(Clone, Copy, Debug)]
pub struct PoolStats {
    pub current_supply: u32,
    pub current_price: u64,
    pub market_cap: u64,
    pub total_escrowed: u64,
    pub total_platform_fees: u64,
    pub minimum_bid: u64,
    pub is_active: bool,
    pub is_migrated: bool,
    pub should_migrate: bool,
}

/// Protocol fee on a mint: 1% of the price, rounded down.
pub open spec fn protocol_fee_of(mint_price: nat) -> nat {
    mint_price / 100
}

/// The sell fee on what an escrow holds above its reserve.
pub open spec fn sell_fee_of(available: nat, fee_bp: nat) -> nat {
    available * fee_bp / 10000
}

/// Sell fee of the canonical configuration: 5%.
pub const DEFAULT_SELL_FEE_BP: u16 = 500;

impl BondingCurvePool {
    /// A migrated pool is never active.
    pub open spec fn wf(&self) -> bool {
        self.is_migrated ==> !self.is_active
    }

    pub open spec fn base(&self) -> nat {
        self.curve_params.base_price as nat
    }

    pub open spec fn growth(&self) -> nat {
        self.curve_params.growth_factor as nat
    }

    /// The curve price of the next item, as a mathematical value.
    pub open spec fn spec_current_price(&self) -> nat {
        price(self.base(), self.growth(), self.current_supply as nat)
    }

    /// The next price can be computed: a valid curve whose compounding stays in range.
    pub open spec fn price_ok(&self) -> bool {
        valid_curve(self.curve_params.base_price, self.curve_params.growth_factor) && price_fits(
            self.base(),
            self.growth(),
            self.current_supply as nat,
        )
    }

    /// A new, active pool with nothing minted.
    pub fn new(
        collection: Address,
        creator: Address,
        curve_params: BondingCurveParams,
        pricing_config: DynamicPricingConfig,
        created_at: i64,
        bump: u8,
    ) -> (r: Result<BondingCurvePool, ErrorCode>)
        ensures
            !curve_params.is_valid() ==> r == Err::<BondingCurvePool, ErrorCode>(
                ErrorCode::InvalidAmount,
            ),
            curve_params.is_valid() && !pricing_config.is_valid() ==> r == Err::<
                BondingCurvePool,
                ErrorCode,
            >(ErrorCode::InvalidPricingConfig),
            curve_params.is_valid() && pricing_config.is_valid() ==> (r matches Ok(p) && {
                &&& p.wf()
                &&& p.collection == collection
                &&& p.creator == creator
                &&& p.curve_params == curve_params
                &&& p.pricing_config == pricing_config
                &&& p.current_supply == 0
                &&& p.total_escrowed == 0
                &&& p.total_platform_fees == 0
                &&& p.is_active
                &&& !p.is_migrated
                &&& p.created_at == created_at
                &&& p.migrated_at is None
                &&& p.bump == bump
            }),
    {
        curve_params.validate()?;
        if pricing_config.minimum_premium_bp > 10000 || pricing_config.bid_increment_bp > 5000
            || pricing_config.max_bid_duration < pricing_config.min_bid_duration {
            return Err(ErrorCode::InvalidPricingConfig);
        }
        Ok(
            BondingCurvePool {
                collection,
                curve_params,
                pricing_config,
                current_supply: 0,
                total_escrowed: 0,
                total_platform_fees: 0,
                creator,
                is_active: true,
                is_migrated: false,
                created_at,
                migrated_at: None,
                bump,
            },
        )
    }

    /// Curve price of the next item to be minted.
    pub fn calculate_current_price(&self) -> (r: Result<u64, ErrorCode>)
        ensures
            self.price_ok() ==> r == Ok::<u64, ErrorCode>(self.spec_current_price() as u64),
            !valid_curve(self.curve_params.base_price, self.curve_params.growth_factor) ==> r
                == Err::<u64, ErrorCode>(ErrorCode::InvalidAmount),
            valid_curve(self.curve_params.base_price, self.curve_params.growth_factor)
                && !self.price_ok() ==> r == Err::<u64, ErrorCode>(ErrorCode::MathOverflow),
            r is Ok ==> self.price_ok() && self.spec_current_price() <= u64::MAX,
    {
        BondingCurve::calculate_price(
            self.curve_params.base_price,
            self.curve_params.growth_factor,
            self.current_supply,
        )
    }

    /// Sum of the curve prices of all items minted so far.
    pub fn calculate_market_cap(&self) -> (r: Result<u64, ErrorCode>)
        ensures
            self.current_supply == 0 ==> r == Ok::<u64, ErrorCode>(0),
            self.current_supply > 0 && !valid_curve(
                self.curve_params.base_price,
                self.curve_params.growth_factor,
            ) ==> r == Err::<u64, ErrorCode>(ErrorCode::InvalidAmount),
            self.current_supply > 0 && valid_curve(
                self.curve_params.base_price,
                self.curve_params.growth_factor,
            ) && cap_within(self.base(), self.growth(), self.current_supply as nat, u64::MAX as nat)
                ==> r == Ok::<u64, ErrorCode>(
                market_cap(self.base(), self.growth(), self.current_supply as nat) as u64,
            ),
            self.current_supply > 0 && valid_curve(
                self.curve_params.base_price,
                self.curve_params.growth_factor,
            ) && !cap_within(
                self.base(),
                self.growth(),
                self.current_supply as nat,
                u64::MAX as nat,
            ) ==> r == Err::<u64, ErrorCode>(ErrorCode::MathOverflow),
    {
        BondingCurve::calculate_market_cap(
            self.curve_params.base_price,
            self.curve_params.growth_factor,
            self.current_supply,
        )
    }

    /// Whether the market cap has reached the migration threshold (never once migrated).
    pub fn should_migrate(&self) -> (r: Result<bool, ErrorCode>)
        ensures
            self.is_migrated ==> r == Ok::<bool, ErrorCode>(false),
            !self.is_migrated ==> match r {
                Ok(b) => {
                    &&& (self.current_supply == 0 || (valid_curve(
                        self.curve_params.base_price,
                        self.curve_params.growth_factor,
                    ) && cap_within(
                        self.base(),
                        self.growth(),
                        self.current_supply as nat,
                        u64::MAX as nat,
                    )))
                    &&& b == (market_cap(self.base(), self.growth(), self.current_supply as nat)
                        >= self.curve_params.migration_threshold)
                },
                Err(e) => self.current_supply > 0 && (e == ErrorCode::InvalidAmount
                    || e == ErrorCode::MathOverflow),
            },
            !self.is_migrated && (self.current_supply == 0 || (valid_curve(
                self.curve_params.base_price,
                self.curve_params.growth_factor,
            ) && cap_within(
                self.base(),
                self.growth(),
                self.current_supply as nat,
                u64::MAX as nat,
            ))) ==> r is Ok,
    {
        if self.is_migrated {
            return Ok(false);
        }
        let cap = self.calculate_market_cap()?;
        Ok(cap >= self.curve_params.migration_threshold)
    }

    /// Lowest acceptable bid: the curve price raised by the minimum premium.
    pub fn calculate_minimum_bid(&self) -> (r: Result<u64, ErrorCode>)
        ensures
            self.price_ok() && raised_by_bp(
                self.spec_current_price(),
                self.pricing_config.minimum_premium_bp as nat,
            ) <= u64::MAX ==> r == Ok::<u64, ErrorCode>(
                raised_by_bp(
                    self.spec_current_price(),
                    self.pricing_config.minimum_premium_bp as nat,
                ) as u64,
            ),
            self.price_ok() && raised_by_bp(
                self.spec_current_price(),
                self.pricing_config.minimum_premium_bp as nat,
            ) > u64::MAX ==> r == Err::<u64, ErrorCode>(ErrorCode::MathOverflow),
            !valid_curve(self.curve_params.base_price, self.curve_params.growth_factor) ==> r
                == Err::<u64, ErrorCode>(ErrorCode::InvalidAmount),
            valid_curve(self.curve_params.base_price, self.curve_params.growth_factor)
                && !self.price_ok() ==> r == Err::<u64, ErrorCode>(ErrorCode::MathOverflow),
    {
        let current_price = self.calculate_current_price()?;
        raise_by_bp(current_price, self.pricing_config.minimum_premium_bp)
    }

    /// Counts one more item and adds its escrow to the total; fails, changing
    /// nothing, on a migrated, inactive or full pool or when a counter would overflow.
    pub fn mint_nft(&mut self, _price: u64, escrow_amount: u64) -> (r: Result<(), ErrorCode>)
        ensures
            old(self).is_migrated ==> r == Err::<(), ErrorCode>(ErrorCode::AlreadyMigrated),
            !old(self).is_migrated && !old(self).is_active ==> r == Err::<(), ErrorCode>(
                ErrorCode::PoolInactive,
            ),
            !old(self).is_migrated && old(self).is_active && old(self).current_supply >= old(
                self,
            ).curve_params.max_supply ==> r == Err::<(), ErrorCode>(ErrorCode::MaxSupplyReached),
            !old(self).is_migrated && old(self).is_active && old(self).current_supply < old(
                self,
            ).curve_params.max_supply && old(self).total_escrowed + escrow_amount > u64::MAX
                ==> r == Err::<(), ErrorCode>(ErrorCode::MathOverflow),
            r is Ok <==> (!old(self).is_migrated && old(self).is_active && old(self).current_supply
                < old(self).curve_params.max_supply && old(self).total_escrowed + escrow_amount
                <= u64::MAX),
            r is Ok ==> *final(self) == (BondingCurvePool {
                current_supply: (old(self).current_supply + 1) as u32,
                total_escrowed: (old(self).total_escrowed + escrow_amount) as u64,
                ..*old(self)
            }),
            r is Err ==> *final(self) == *old(self),
    {
        if self.is_migrated {
            return Err(ErrorCode::AlreadyMigrated);
        }
        if !self.is_active {
            return Err(ErrorCode::PoolInactive);
        }
        if self.current_supply >= self.curve_params.max_supply {
            return Err(ErrorCode::MaxSupplyReached);
        }
        if self.total_escrowed > u64::MAX - escrow_amount {
            return Err(ErrorCode::MathOverflow);
        }
        self.current_supply = self.current_supply + 1;
        self.total_escrowed = self.total_escrowed + escrow_amount;
        Ok(())
    }

    /// Counts one item less and takes its escrow off the total; fails, changing
    /// nothing, on a migrated or empty pool or when the total would go negative.
    pub fn burn_nft(&mut self, escrow_amount: u64) -> (r: Result<(), ErrorCode>)
        ensures
            old(self).is_migrated ==> r == Err::<(), ErrorCode>(ErrorCode::AlreadyMigrated),
            !old(self).is_migrated && old(self).current_supply == 0 ==> r == Err::<(), ErrorCode>(
                ErrorCode::InvalidAmount,
            ),
            !old(self).is_migrated && old(self).current_supply > 0 && old(self).total_escrowed
                < escrow_amount ==> r == Err::<(), ErrorCode>(ErrorCode::MathUnderflow),
            r is Ok <==> (!old(self).is_migrated && old(self).current_supply > 0 && old(
                self,
            ).total_escrowed >= escrow_amount),
            r is Ok ==> *final(self) == (BondingCurvePool {
                current_supply: (old(self).current_supply - 1) as u32,
                total_escrowed: (old(self).total_escrowed - escrow_amount) as u64,
                ..*old(self)
            }),
            r is Err ==> *final(self) == *old(self),
    {
        if self.is_migrated {
            return Err(ErrorCode::AlreadyMigrated);
        }
        if self.current_supply == 0 {
            return Err(ErrorCode::InvalidAmount);
        }
        if self.total_escrowed < escrow_amount {
            return Err(ErrorCode::MathUnderflow);
        }
        self.current_supply = self.current_supply - 1;
        self.total_escrowed = self.total_escrowed - escrow_amount;
        Ok(())
    }

    /// Mints the next item at the curve price: 1% goes to the creator as
    /// protocol fee, the rest into the item's escrow, and supply and the escrow
    /// total grow. Checks everything before changing anything.
    pub fn mint_item(&mut self) -> (r: Result<MintReceipt, ErrorCode>)
        ensures
            old(self).is_migrated ==> r == Err::<MintReceipt, ErrorCode>(
                ErrorCode::AlreadyMigrated,
            ),
            !old(self).is_migrated && !old(self).is_active ==> r == Err::<MintReceipt, ErrorCode>(
                ErrorCode::PoolInactive,
            ),
            !old(self).is_migrated && old(self).is_active && old(self).current_supply >= old(
                self,
            ).curve_params.max_supply ==> r == Err::<MintReceipt, ErrorCode>(
                ErrorCode::MaxSupplyReached,
            ),
            r is Ok <==> {
                &&& !old(self).is_migrated
                &&& old(self).is_active
                &&& old(self).current_supply < old(self).curve_params.max_supply
                &&& old(self).price_ok()
                &&& old(self).total_escrowed + (old(self).spec_current_price() - protocol_fee_of(
                    old(self).spec_current_price(),
                )) <= u64::MAX
            },
            r matches Ok(rec) ==> {
                &&& rec.price == old(self).spec_current_price()
                &&& rec.protocol_fee == protocol_fee_of(rec.price as nat)
                &&& rec.escrow_amount == rec.price - protocol_fee_of(rec.price as nat)
                &&& rec.protocol_fee + rec.escrow_amount == rec.price
                &&& *final(self) == (BondingCurvePool {
                    current_supply: (old(self).current_supply + 1) as u32,
                    total_escrowed: (old(self).total_escrowed + rec.escrow_amount) as u64,
                    ..*old(self)
                })
            },
            r is Err ==> *final(self) == *old(self),
    {
        if self.is_migrated {
            return Err(ErrorCode::AlreadyMigrated);
        }
        if !self.is_active {
            return Err(ErrorCode::PoolInactive);
        }
        if self.current_supply >= self.curve_params.max_supply {
            return Err(ErrorCode::MaxSupplyReached);
        }
        let mint_price = self.calculate_current_price()?;
        let protocol_fee = mint_price / 100;
        let escrow_amount = mint_price - protocol_fee;
        self.mint_nft(mint_price, escrow_amount)?;
        Ok(MintReceipt { price: mint_price, protocol_fee, escrow_amount })
    }

    /// Sells an item back: the escrow account's balance above `reserve` pays a
    /// fee of `sell_fee_bp` to the creator, the seller gets the rest plus the
    /// reserve, so the account is left empty; supply and the escrow total shrink.
    pub fn sell_item(
        &mut self,
        escrow: &NftEscrow,
        account_balance: u64,
        reserve: u64,
        sell_fee_bp: u16,
    ) -> (r: Result<SellReceipt, ErrorCode>)
        ensures
            old(self).is_migrated ==> r == Err::<SellReceipt, ErrorCode>(
                ErrorCode::AlreadyMigrated,
            ),
            !old(self).is_migrated && !old(self).is_active ==> r == Err::<SellReceipt, ErrorCode>(
                ErrorCode::PoolInactive,
            ),
            !old(self).is_migrated && old(self).is_active && sell_fee_bp > 10000 ==> r == Err::<
                SellReceipt,
                ErrorCode,
            >(ErrorCode::InvalidPercentage),
            !old(self).is_migrated && old(self).is_active && sell_fee_bp <= 10000 && account_balance
                < reserve ==> r == Err::<SellReceipt, ErrorCode>(
                ErrorCode::InsufficientEscrowBalance,
            ),
            r is Ok <==> {
                &&& !old(self).is_migrated
                &&& old(self).is_active
                &&& sell_fee_bp <= 10000
                &&& account_balance >= reserve
                &&& old(self).current_supply > 0
                &&& old(self).total_escrowed >= escrow.lamports
            },
            r matches Ok(rec) ==> {
                &&& rec.fee == sell_fee_of((account_balance - reserve) as nat, sell_fee_bp as nat)
                &&& rec.fee + rec.to_seller == account_balance
                &&& *final(self) == (BondingCurvePool {
                    current_supply: (old(self).current_supply - 1) as u32,
                    total_escrowed: (old(self).total_escrowed - escrow.lamports) as u64,
                    ..*old(self)
                })
            },
            r is Err ==> *final(self) == *old(self),
    {
        if self.is_migrated {
            return Err(ErrorCode::AlreadyMigrated);
        }
        if !self.is_active {
            return Err(ErrorCode::PoolInactive);
        }
        if sell_fee_bp > 10000 {
            return Err(ErrorCode::InvalidPercentage);
        }
        if account_balance < reserve {
            return Err(ErrorCode::InsufficientEscrowBalance);
        }
        let available = account_balance - reserve;
        let fee = crate::curve::share_of_bp(available, sell_fee_bp)?;
        self.burn_nft(escrow.lamports)?;
        Ok(SellReceipt { fee, to_seller: account_balance - fee })
    }

    /// Adds to the platform fees collected.
    pub fn add_platform_fees(&mut self, amount: u64) -> (r: Result<(), ErrorCode>)
        ensures
            old(self).total_platform_fees + amount > u64::MAX ==> r == Err::<(), ErrorCode>(
                ErrorCode::MathOverflow,
            ) && *final(self) == *old(self),
            old(self).total_platform_fees + amount <= u64::MAX ==> r is Ok && *final(self) == (
            BondingCurvePool {
                total_platform_fees: (old(self).total_platform_fees + amount) as u64,
                ..*old(self)
            }),
    {
        if self.total_platform_fees > u64::MAX - amount {
            return Err(ErrorCode::MathOverflow);
        }
        self.total_platform_fees = self.total_platform_fees + amount;
        Ok(())
    }

    /// Freezes the pool for good once the market cap reaches the threshold.
    pub fn migrate(&mut self, timestamp: i64) -> (r: Result<(), ErrorCode>)
        ensures
            old(self).is_migrated ==> r == Err::<(), ErrorCode>(ErrorCode::AlreadyMigrated),
            r is Ok <==> (!old(self).is_migrated && (old(self).current_supply == 0 || (valid_curve(
                old(self).curve_params.base_price,
                old(self).curve_params.growth_factor,
            ) && cap_within(
                old(self).base(),
                old(self).growth(),
                old(self).current_supply as nat,
                u64::MAX as nat,
            ))) && market_cap(old(self).base(), old(self).growth(), old(self).current_supply as nat)
                >= old(self).curve_params.migration_threshold),
            r is Ok ==> *final(self) == (BondingCurvePool {
                is_migrated: true,
                is_active: false,
                migrated_at: Some(timestamp),
                ..*old(self)
            }),
            r is Err ==> *final(self) == *old(self),
    {
        if self.is_migrated {
            return Err(ErrorCode::AlreadyMigrated);
        }
        let ready = self.should_migrate()?;
        if !ready {
            return Err(ErrorCode::ThresholdNotMet);
        }
        self.is_migrated = true;
        self.is_active = false;
        self.migrated_at = Some(timestamp);
        Ok(())
    }

    /// Closes minting and selling.
    pub fn deactivate(&mut self) -> (r: Result<(), ErrorCode>)
        ensures
            r is Ok,
            *final(self) == (BondingCurvePool { is_active: false, ..*old(self) }),
    {
        self.is_active = false;
        Ok(())
    }

    /// Reopens minting and selling, which a migrated pool never does.
    pub fn reactivate(&mut self) -> (r: Result<(), ErrorCode>)
        ensures
            old(self).is_migrated ==> r == Err::<(), ErrorCode>(ErrorCode::AlreadyMigrated)
                && *final(self) == *old(self),
            !old(self).is_migrated ==> r is Ok && *final(self) == (BondingCurvePool {
                is_active: true,
                ..*old(self)
            }),
    {
        if self.is_migrated {
            return Err(ErrorCode::AlreadyMigrated);
        }
        self.is_active = true;
        Ok(())
    }

    /// Replaces the bid rules, provided they are valid.
    pub fn update_pricing_config(&mut self, new_config: DynamicPricingConfig) -> (r: Result<
        (),
        ErrorCode,
    >)
        ensures
            !new_config.is_valid() ==> r == Err::<(), ErrorCode>(ErrorCode::InvalidPricingConfig)
                && *final(self) == *old(self),
            new_config.is_valid() ==> r is Ok && *final(self) == (BondingCurvePool {
                pricing_config: new_config,
                ..*old(self)
            }),
    {
        if new_config.minimum_premium_bp > 10000 || new_config.bid_increment_bp > 5000
            || new_config.max_bid_duration < new_config.min_bid_duration {
            return Err(ErrorCode::InvalidPricingConfig);
        }
        self.pricing_config = new_config;
        Ok(())
    }

    /// Current figures of the pool.
    pub fn get_stats(&self) -> (r: Result<PoolStats, ErrorCode>)
        ensures
            r matches Ok(s) ==> {
                &&& s.current_supply == self.current_supply
                &&& s.current_price == self.spec_current_price()
                &&& s.market_cap == market_cap(
                    self.base(),
                    self.growth(),
                    self.current_supply as nat,
                )
                &&& s.total_escrowed == self.total_escrowed
                &&& s.total_platform_fees == self.total_platform_fees
                &&& s.minimum_bid == raised_by_bp(
                    self.spec_current_price(),
                    self.pricing_config.minimum_premium_bp as nat,
                )
                &&& s.is_active == self.is_active
                &&& s.is_migrated == self.is_migrated
                &&& s.should_migrate == (!self.is_migrated && s.market_cap
                    >= self.curve_params.migration_threshold)
            },
            self.price_ok() && cap_within(
                self.base(),
                self.growth(),
                self.current_supply as nat,
                u64::MAX as nat,
            ) && raised_by_bp(
                self.spec_current_price(),
                self.pricing_config.minimum_premium_bp as nat,
            ) <= u64::MAX ==> r is Ok,
    {
        let current_price = self.calculate_current_price()?;
        let market_cap = self.calculate_market_cap()?;
        let minimum_bid = self.calculate_minimum_bid()?;
        let should_migrate = !self.is_migrated && market_cap
            >= self.curve_params.migration_threshold;
        Ok(
            PoolStats {
                current_supply: self.current_supply,
                current_price,
                market_cap,
                total_escrowed: self.total_escrowed,
                total_platform_fees: self.total_platform_fees,
                minimum_bid,
                is_active: self.is_active,
                is_migrated: self.is_migrated,
                should_migrate,
            },
        )
    }
}

} // verus!
