use vstd::prelude::*;

use crate::errors::ErrorCode;

verus! {

/// Basis points in one whole: 10000 bp = 100%.
pub const BASIS_POINTS: u64 = 10000;

/// Price of the item minted when `s` items are already out: the base price,
/// compounded once per unit of supply by `g / 10000`, rounding down at every step.
pub open spec fn price(base: nat, g: nat, s: nat) -> nat
    decreases s,
{
    if s == 0 {
        base
    } else {
        price(base, g, (s - 1) as nat) * g / 10000
    }
}

/// Every product formed while compounding up to supply `s` fits in a `u64`.
pub open spec fn price_fits(base: nat, g: nat, s: nat) -> bool
    decreases s,
{
    s == 0 || (price_fits(base, g, (s - 1) as nat) && price(base, g, (s - 1) as nat) * g
        <= u64::MAX)
}

/// Sum of the prices of the first `s` items.
pub open spec fn market_cap(base: nat, g: nat, s: nat) -> nat
    decreases s,
{
    if s == 0 {
        0
    } else {
        market_cap(base, g, (s - 1) as nat) + price(base, g, (s - 1) as nat)
    }
}

/// A curve that starts above zero and only grows.
pub open spec fn valid_curve(base: u64, g: u16) -> bool {
    base > 0 && g > 10000
}

/// The market cap of `s` items can be computed without leaving the `u64` range
/// and stays within `limit`.
pub open spec fn cap_within(base: nat, g: nat, s: nat, limit: nat) -> bool {
    s == 0 || (price_fits(base, g, (s - 1) as nat) && market_cap(base, g, s) <= limit)
}

/// `amount * (10000 + bp) / 10000`: an amount raised by `bp` basis points, rounded down.
pub open spec fn raised_by_bp(amount: nat, bp: nat) -> nat {
    amount * (10000 + bp) / 10000
}

/// `amount * bp / 10000`: a share of `bp` basis points, rounded down.
pub open spec fn bp_share(amount: nat, bp: nat) -> nat {
    amount * bp / 10000
}

pub proof fn lemma_fits_down(base: nat, g: nat, s: nat, t: nat)
    requires
        price_fits(base, g, s),
        t <= s,
    ensures
        price_fits(base, g, t),
    decreases s,
{
    if t < s {
        lemma_fits_down(base, g, (s - 1) as nat, t);
    }
}

pub proof fn lemma_cap_monotone(base: nat, g: nat, s: nat, t: nat)
    requires
        t <= s,
    ensures
        market_cap(base, g, t) <= market_cap(base, g, s),
    decreases s,
{
    if t < s {
        lemma_cap_monotone(base, g, (s - 1) as nat, t);
    }
}

/// One compounding step never lowers a price when `g >= 10000`.
proof fn lemma_step_not_lower(p: nat, g: nat)
    requires
        g >= 10000,
    ensures
        p * g / 10000 >= p,
{
    assert(p * g >= p * 10000) by (nonlinear_arith)
        requires
            g >= 10000,
    ;
    vstd::arithmetic::div_mod::lemma_div_is_ordered((p * 10000) as int, (p * g) as int, 10000);
}

/// Growth of the curve: the next price is never lower, and it is strictly higher
/// exactly when the current price times the growth above 100% reaches one whole
/// (below that the rounding down swallows the step).
pub proof fn lemma_price_step(base: u64, g: u16, supply: nat)
    requires
        valid_curve(base, g),
    ensures
        price(base as nat, g as nat, supply + 1) >= price(base as nat, g as nat, supply),
        price(base as nat, g as nat, supply + 1) > price(base as nat, g as nat, supply)
            <==> price(base as nat, g as nat, supply) * (g - 10000) >= 10000,
{
    let p = price(base as nat, g as nat, supply);
    assert(price(base as nat, g as nat, supply + 1) == p * g / 10000);
    lemma_step_not_lower(p, g as nat);
    assert(p * (g - 10000) == p * g - p * 10000) by (nonlinear_arith);
}

/// Prices never fall along a growing curve.
pub proof fn lemma_price_monotone(base: u64, g: u16, s: nat, t: nat)
    requires
        valid_curve(base, g),
        t <= s,
    ensures
        price(base as nat, g as nat, t) <= price(base as nat, g as nat, s),
    decreases s,
{
    if t < s {
        lemma_price_monotone(base, g, (s - 1) as nat, t);
        lemma_price_step(base, g, (s - 1) as nat);
    }
}

/// On a curve whose first step already rounds to a gain, every later step
/// raises the price strictly.
pub proof fn lemma_price_strictly_increasing(base: u64, g: u16, supply: nat)
    requires
        valid_curve(base, g),
        base * (g - 10000) >= 10000,
    ensures
        price(base as nat, g as nat, supply + 1) > price(base as nat, g as nat, supply),
{
    let p = price(base as nat, g as nat, supply);
    lemma_price_monotone(base, g, supply, 0);
    assert(p * (g - 10000) >= base * (g - 10000)) by (nonlinear_arith)
        requires
            p >= base,
            g > 10000,
    ;
    lemma_price_step(base, g, supply);
}

/// On a curve whose first step rounds back down to the base price, the price
/// never moves: together with the lemma above, prices rise at every supply
/// exactly when `base * (g - 10000) >= 10000`.
pub proof fn lemma_price_flat(base: u64, g: u16, supply: nat)
    requires
        valid_curve(base, g),
        base * (g - 10000) < 10000,
    ensures
        price(base as nat, g as nat, supply) == base,
    decreases supply,
{
    if supply > 0 {
        lemma_price_flat(base, g, (supply - 1) as nat);
        lemma_price_step(base, g, (supply - 1) as nat);
    }
}

/// Raising by a premium never lowers an amount.
pub proof fn lemma_raised_at_least(amount: nat, bp: nat)
    ensures
        raised_by_bp(amount, bp) >= amount,
{
    assert(amount * (10000 + bp) >= amount * 10000) by (nonlinear_arith);
    vstd::arithmetic::div_mod::lemma_div_is_ordered(
        (amount * 10000) as int,
        (amount * (10000 + bp)) as int,
        10000,
    );
}

/// `amount * (10000 + bp) / 10000`, failing when it leaves the `u64` range.
pub fn raise_by_bp(amount: u64, bp: u16) -> (r: Result<u64, ErrorCode>)
    ensures
        raised_by_bp(amount as nat, bp as nat) <= u64::MAX ==> r == Ok::<u64, ErrorCode>(
            raised_by_bp(amount as nat, bp as nat) as u64,
        ),
        raised_by_bp(amount as nat, bp as nat) > u64::MAX ==> r == Err::<u64, ErrorCode>(
            ErrorCode::MathOverflow,
        ),
{
    let factor: u128 = 10000u128 + bp as u128;
    assert(amount as u128 * factor <= u64::MAX as u128 * 75536) by (nonlinear_arith)
        requires
            factor <= 75536,
    ;
    let v: u128 = amount as u128 * factor / 10000;
    if v > u64::MAX as u128 {
        Err(ErrorCode::MathOverflow)
    } else {
        Ok(v as u64)
    }
}

/// `amount * bp / 10000`, failing when it leaves the `u64` range.
pub fn share_of_bp(amount: u64, bp: u16) -> (r: Result<u64, ErrorCode>)
    ensures
        bp_share(amount as nat, bp as nat) <= u64::MAX ==> r == Ok::<u64, ErrorCode>(
            bp_share(amount as nat, bp as nat) as u64,
        ),
        bp_share(amount as nat, bp as nat) > u64::MAX ==> r == Err::<u64, ErrorCode>(
            ErrorCode::MathOverflow,
        ),
        bp <= 10000 ==> bp_share(amount as nat, bp as nat) <= amount,
{
    assert(amount as u128 * bp as u128 <= u64::MAX as u128 * 65535) by (nonlinear_arith);
    if bp <= 10000 {
        assert(amount * bp <= amount * 10000) by (nonlinear_arith)
            requires
                bp <= 10000,
        ;
    }
    let v: u128 = amount as u128 * bp as u128 / 10000;
    if v > u64::MAX as u128 {
        Err(ErrorCode::MathOverflow)
    } else {
        Ok(v as u64)
    }
}


/// Parameter ranges accepted for a new curve: base price between 0.001 and 1000
/// whole units, growth above 100% and at most 500%, between one and 100000 items.
pub open spec fn params_in_range(base: u64, g: u16, max_supply: u32) -> bool {
    &&& 1_000_000 <= base <= 1_000_000_000_000
    &&& 10000 < g <= 50000
    &&& 1 <= max_supply <= 100000
}

/// Highest price a curve may reach on its last item.
pub const MAX_ITEM_PRICE: u64 = 1_000_000_000_000_000;

/// Growth between two prices in basis points, capped at what a `u16` holds.
pub open spec fn growth_rate_bp(first: nat, second: nat) -> nat {
    if second * 10000 / first > u16::MAX {
        u16::MAX as nat
    } else {
        second * 10000 / first
    }
}

/// Price increase expressed in basis points of the current price; zero where
/// the scaled increase leaves the `u64` range or there is no current price.
pub open spec fn increase_bp(increase: nat, current: nat) -> nat {
    if current > 0 && increase * 10000 <= u64::MAX {
        increase * 10000 / current
    } else {
        0
    }
}

pub proof fn lemma_cap_within_down(base: nat, g: nat, s: nat, t: nat, limit: nat)
    requires
        cap_within(base, g, s, limit),
        t <= s,
    ensures
        cap_within(base, g, t, limit),
{
    if t > 0 {
        lemma_fits_down(base, g, (s - 1) as nat, (t - 1) as nat);
        lemma_cap_monotone(base, g, s, t);
    }
}

/// Snapshot of a curve at one supply level.
#[derive(Clone, Copy, Debug)]
pub struct CurveAnalysis {
    pub current_price: u64,
    pub next_price: u64,
    pub price_increase: u64,
    pub price_increase_percentage: u64,
    pub market_cap: u64,
    pub average_price: u64,
}

/// Bonding-curve arithmetic: prices, market cap and the checks on curve parameters.
pub struct BondingCurve;

impl BondingCurve {
    /// Price of the next item when `supply` items are out: `base_price` compounded
    /// `supply` times by `growth_factor / 10000`, rounding down at each step.
    pub fn calculate_price(base_price: u64, growth_factor: u16, supply: u32) -> (r: Result<
        u64,
        ErrorCode,
    >)
        ensures
            !valid_curve(base_price, growth_factor) ==> r == Err::<u64, ErrorCode>(
                ErrorCode::InvalidAmount,
            ),
            valid_curve(base_price, growth_factor) && price_fits(
                base_price as nat,
                growth_factor as nat,
                supply as nat,
            ) ==> r == Ok::<u64, ErrorCode>(
                price(base_price as nat, growth_factor as nat, supply as nat) as u64,
            ),
            valid_curve(base_price, growth_factor) && !price_fits(
                base_price as nat,
                growth_factor as nat,
                supply as nat,
            ) ==> r == Err::<u64, ErrorCode>(ErrorCode::MathOverflow),
            r is Ok ==> price(base_price as nat, growth_factor as nat, supply as nat)
                <= u64::MAX,
    {
        if base_price == 0 || growth_factor <= 10000 {
            return Err(ErrorCode::InvalidAmount);
        }
        let ghost b = base_price as nat;
        let ghost g = growth_factor as nat;
        let mut p: u64 = base_price;
        let mut i: u32 = 0;
        while i < supply
            invariant
                i <= supply,
                p == price(b, g, i as nat),
                price_fits(b, g, i as nat),
                b == base_price,
                g == growth_factor,
                valid_curve(base_price, growth_factor),
            decreases supply - i,
        {
            assert(p as u128 * growth_factor as u128 <= u64::MAX as u128 * 65535)
                by (nonlinear_arith);
            let prod: u128 = p as u128 * growth_factor as u128;
            if prod > u64::MAX as u128 {
                proof {
                    assert(!price_fits(b, g, (i + 1) as nat));
                    if price_fits(b, g, supply as nat) {
                        lemma_fits_down(b, g, supply as nat, (i + 1) as nat);
                    }
                }
                return Err(ErrorCode::MathOverflow);
            }
            p = (prod / 10000) as u64;
            i = i + 1;
        }
        Ok(p)
    }

    /// Sum of the prices of the first `supply` items (zero for no items).
    pub fn calculate_market_cap(base_price: u64, growth_factor: u16, supply: u32) -> (r: Result<
        u64,
        ErrorCode,
    >)
        ensures
            supply == 0 ==> r == Ok::<u64, ErrorCode>(0),
            supply > 0 && !valid_curve(base_price, growth_factor) ==> r == Err::<u64, ErrorCode>(
                ErrorCode::InvalidAmount,
            ),
            supply > 0 && valid_curve(base_price, growth_factor) && cap_within(
                base_price as nat,
                growth_factor as nat,
                supply as nat,
                u64::MAX as nat,
            ) ==> r == Ok::<u64, ErrorCode>(
                market_cap(base_price as nat, growth_factor as nat, supply as nat) as u64,
            ),
            supply > 0 && valid_curve(base_price, growth_factor) && !cap_within(
                base_price as nat,
                growth_factor as nat,
                supply as nat,
                u64::MAX as nat,
            ) ==> r == Err::<u64, ErrorCode>(ErrorCode::MathOverflow),
    {
        if supply == 0 {
            return Ok(0);
        }
        if base_price == 0 || growth_factor <= 10000 {
            return Err(ErrorCode::InvalidAmount);
        }
        let ghost b = base_price as nat;
        let ghost g = growth_factor as nat;
        let mut total: u64 = 0;
        let mut p: u64 = base_price;
        let mut i: u32 = 0;
        while i < supply
            invariant
                0 < supply,
                i <= supply,
                i < supply ==> p == price(b, g, i as nat) && price_fits(b, g, i as nat),
                total == market_cap(b, g, i as nat),
                b == base_price,
                g == growth_factor,
                valid_curve(base_price, growth_factor),
                i > 0 ==> price_fits(b, g, (i - 1) as nat),
            decreases supply - i,
        {
            if total > u64::MAX - p {
                proof {
                    assert(market_cap(b, g, (i + 1) as nat) > u64::MAX);
                    lemma_cap_monotone(b, g, supply as nat, (i + 1) as nat);
                }
                return Err(ErrorCode::MathOverflow);
            }
            total = total + p;
            i = i + 1;
            if i < supply {
                assert(p as u128 * growth_factor as u128 <= u64::MAX as u128 * 65535)
                    by (nonlinear_arith);
                let prod: u128 = p as u128 * growth_factor as u128;
                if prod > u64::MAX as u128 {
                    proof {
                        assert(!price_fits(b, g, i as nat));
                        if price_fits(b, g, (supply - 1) as nat) {
                            lemma_fits_down(b, g, (supply - 1) as nat, i as nat);
                        }
                    }
                    return Err(ErrorCode::MathOverflow);
                }
                p = (prod / 10000) as u64;
            }
        }
        Ok(total)
    }

    /// How much the price rises between two supply levels.
    pub fn calculate_price_difference(
        base_price: u64,
        growth_factor: u16,
        from_supply: u32,
        to_supply: u32,
    ) -> (r: Result<u64, ErrorCode>)
        ensures
            to_supply < from_supply ==> r == Err::<u64, ErrorCode>(ErrorCode::InvalidAmount),
            to_supply == from_supply ==> r == Ok::<u64, ErrorCode>(0),
            to_supply > from_supply && !valid_curve(base_price, growth_factor) ==> r == Err::<
                u64,
                ErrorCode,
            >(ErrorCode::InvalidAmount),
            to_supply > from_supply && valid_curve(base_price, growth_factor) && price_fits(
                base_price as nat,
                growth_factor as nat,
                to_supply as nat,
            ) ==> r == Ok::<u64, ErrorCode>(
                (price(base_price as nat, growth_factor as nat, to_supply as nat) - price(
                    base_price as nat,
                    growth_factor as nat,
                    from_supply as nat,
                )) as u64,
            ),
            to_supply > from_supply && valid_curve(base_price, growth_factor) && !price_fits(
                base_price as nat,
                growth_factor as nat,
                to_supply as nat,
            ) ==> r == Err::<u64, ErrorCode>(ErrorCode::MathOverflow),
    {
        if to_supply < from_supply {
            return Err(ErrorCode::InvalidAmount);
        }
        if from_supply == to_supply {
            return Ok(0);
        }
        let from_price = match Self::calculate_price(base_price, growth_factor, from_supply) {
            Ok(p) => p,
            Err(e) => {
                proof {
                    if valid_curve(base_price, growth_factor) && price_fits(
                        base_price as nat,
                        growth_factor as nat,
                        to_supply as nat,
                    ) {
                        lemma_fits_down(
                            base_price as nat,
                            growth_factor as nat,
                            to_supply as nat,
                            from_supply as nat,
                        );
                    }
                }
                return Err(e);
            },
        };
        let to_price = Self::calculate_price(base_price, growth_factor, to_supply)?;
        proof {
            lemma_price_monotone(base_price, growth_factor, to_supply as nat, from_supply as nat);
        }
        Ok(to_price - from_price)
    }

    /// Largest supply up to `max_supply` whose market cap stays within
    /// `target_market_cap`, found by binary search.
    pub fn calculate_supply_for_market_cap(
        base_price: u64,
        growth_factor: u16,
        target_market_cap: u64,
        max_supply: u32,
    ) -> (r: Result<u32, ErrorCode>)
        ensures
            target_market_cap == 0 ==> r == Ok::<u32, ErrorCode>(0),
            target_market_cap > 0 && !valid_curve(base_price, growth_factor) ==> r == Err::<
                u32,
                ErrorCode,
            >(ErrorCode::InvalidAmount),
            target_market_cap > 0 && valid_curve(base_price, growth_factor) ==> (r matches Ok(n)
                && n <= max_supply && cap_within(
                base_price as nat,
                growth_factor as nat,
                n as nat,
                target_market_cap as nat,
            ) && forall|s: nat|
                n < s <= max_supply ==> !#[trigger] cap_within(
                    base_price as nat,
                    growth_factor as nat,
                    s,
                    target_market_cap as nat,
                )),
    {
        if target_market_cap == 0 {
            return Ok(0);
        }
        if base_price == 0 || growth_factor <= 10000 {
            return Err(ErrorCode::InvalidAmount);
        }
        let ghost b = base_price as nat;
        let ghost g = growth_factor as nat;
        let ghost t = target_market_cap as nat;
        let mut low: u64 = 0;
        let mut high: u64 = max_supply as u64 + 1;
        while high - low > 1
            invariant
                low < high <= max_supply as u64 + 1,
                cap_within(b, g, low as nat, t),
                forall|s: nat| high <= s <= max_supply ==> !#[trigger] cap_within(b, g, s, t),
                b == base_price,
                g == growth_factor,
                t == target_market_cap,
                valid_curve(base_price, growth_factor),
            decreases high - low,
        {
            let mid: u64 = low + (high - low) / 2;
            let within = match Self::calculate_market_cap(base_price, growth_factor, mid as u32) {
                Ok(cap) => cap <= target_market_cap,
                Err(_) => false,
            };
            if within {
                low = mid;
            } else {
                proof {
                    assert forall|s: nat| mid <= s <= max_supply implies !#[trigger] cap_within(
                        b,
                        g,
                        s,
                        t,
                    ) by {
                        if cap_within(b, g, s, t) {
                            lemma_cap_within_down(b, g, s, mid as nat, t);
                        }
                    }
                }
                high = mid;
            }
        }
        Ok(low as u32)
    }

    /// What a holder gets back for an item bought at `mint_price` once a fee of
    /// `burn_fee_percentage` basis points is taken.
    pub fn calculate_burn_price(mint_price: u64, burn_fee_percentage: u16) -> (r: Result<
        u64,
        ErrorCode,
    >)
        ensures
            burn_fee_percentage > 10000 ==> r == Err::<u64, ErrorCode>(ErrorCode::InvalidAmount),
            burn_fee_percentage <= 10000 ==> r == Ok::<u64, ErrorCode>(
                (mint_price - bp_share(mint_price as nat, burn_fee_percentage as nat)) as u64,
            ),
    {
        if burn_fee_percentage > 10000 {
            return Err(ErrorCode::InvalidAmount);
        }
        let fee = share_of_bp(mint_price, burn_fee_percentage)?;
        Ok(mint_price - fee)
    }

    /// Growth from `price1` to `price2` in basis points (10000 = no growth).
    pub fn calculate_growth_rate(price1: u64, price2: u64) -> (r: Result<u16, ErrorCode>)
        ensures
            price1 == 0 || price2 < price1 ==> r == Err::<u16, ErrorCode>(
                ErrorCode::InvalidAmount,
            ),
            price1 > 0 && price2 >= price1 ==> r == Ok::<u16, ErrorCode>(
                growth_rate_bp(price1 as nat, price2 as nat) as u16,
            ),
    {
        if price1 == 0 || price2 < price1 {
            return Err(ErrorCode::InvalidAmount);
        }
        if price1 == price2 {
            assert(price2 * 10000 / (price1 as int) == 10000) by (nonlinear_arith)
                requires
                    price1 == price2,
                    price1 > 0,
            ;
            return Ok(10000);
        }
        assert(price2 as u128 * 10000 <= u64::MAX as u128 * 10000) by (nonlinear_arith);
        let rate: u128 = price2 as u128 * 10000 / price1 as u128;
        if rate > u16::MAX as u128 {
            Ok(u16::MAX)
        } else {
            Ok(rate as u16)
        }
    }

    /// Accepts curve parameters within the allowed ranges whose last item stays
    /// at or below `MAX_ITEM_PRICE`.
    pub fn validate_parameters(base_price: u64, growth_factor: u16, max_supply: u32) -> (r:
        Result<(), ErrorCode>)
        ensures
            !params_in_range(base_price, growth_factor, max_supply) ==> r == Err::<(), ErrorCode>(
                ErrorCode::InvalidAmount,
            ),
            params_in_range(base_price, growth_factor, max_supply) ==> (r is Ok <==> (price_fits(
                base_price as nat,
                growth_factor as nat,
                (max_supply - 1) as nat,
            ) && price(base_price as nat, growth_factor as nat, (max_supply - 1) as nat)
                <= MAX_ITEM_PRICE)),
            r is Err ==> r == Err::<(), ErrorCode>(ErrorCode::InvalidAmount) || r == Err::<
                (),
                ErrorCode,
            >(ErrorCode::MathOverflow),
            params_in_range(base_price, growth_factor, max_supply) && r is Err ==> r == Err::<
                (),
                ErrorCode,
            >(ErrorCode::MathOverflow),
    {
        if base_price < 1_000_000 || base_price > 1_000_000_000_000 {
            return Err(ErrorCode::InvalidAmount);
        }
        if growth_factor <= 10000 || growth_factor > 50000 {
            return Err(ErrorCode::InvalidAmount);
        }
        if max_supply == 0 || max_supply > 100000 {
            return Err(ErrorCode::InvalidAmount);
        }
        let max_price = Self::calculate_price(base_price, growth_factor, max_supply - 1)?;
        if max_price > MAX_ITEM_PRICE {
            return Err(ErrorCode::MathOverflow);
        }
        Ok(())
    }

    /// Price, next price, rise, market cap and average price at `current_supply`.
    pub fn analyze_curve(base_price: u64, growth_factor: u16, current_supply: u32) -> (r: Result<
        CurveAnalysis,
        ErrorCode,
    >)
        ensures
            !valid_curve(base_price, growth_factor) ==> r == Err::<CurveAnalysis, ErrorCode>(
                ErrorCode::InvalidAmount,
            ),
            valid_curve(base_price, growth_factor) ==> (r is Ok <==> (current_supply < u32::MAX
                && price_fits(base_price as nat, growth_factor as nat, (current_supply + 1) as nat)
                && cap_within(
                base_price as nat,
                growth_factor as nat,
                current_supply as nat,
                u64::MAX as nat,
            ))),
            r is Err ==> r == Err::<CurveAnalysis, ErrorCode>(ErrorCode::InvalidAmount) || r
                == Err::<CurveAnalysis, ErrorCode>(ErrorCode::MathOverflow),
            valid_curve(base_price, growth_factor) && r is Err ==> r == Err::<
                CurveAnalysis,
                ErrorCode,
            >(ErrorCode::MathOverflow),
            r matches Ok(a) ==> {
                &&& a.current_price == price(
                    base_price as nat,
                    growth_factor as nat,
                    current_supply as nat,
                )
                &&& a.next_price == price(
                    base_price as nat,
                    growth_factor as nat,
                    (current_supply + 1) as nat,
                )
                &&& a.price_increase == a.next_price - a.current_price
                &&& a.price_increase_percentage == increase_bp(
                    a.price_increase as nat,
                    a.current_price as nat,
                )
                &&& a.market_cap == market_cap(
                    base_price as nat,
                    growth_factor as nat,
                    current_supply as nat,
                )
                &&& a.average_price == if current_supply > 0 {
                    a.market_cap as nat / current_supply as nat
                } else {
                    0
                }
            },
    {
        let current_price = Self::calculate_price(base_price, growth_factor, current_supply)?;
        if current_supply == u32::MAX {
            return Err(ErrorCode::MathOverflow);
        }
        let next_price = match Self::calculate_price(
            base_price,
            growth_factor,
            current_supply + 1,
        ) {
            Ok(p) => p,
            Err(e) => {
                return Err(e);
            },
        };
        proof {
            lemma_price_step(base_price, growth_factor, current_supply as nat);
        }
        let price_increase = next_price - current_price;
        let price_increase_percentage: u64 = if current_price > 0 && price_increase <= u64::MAX
            / 10000 {
            price_increase * 10000 / current_price
        } else {
            0
        };
        let market_cap = match Self::calculate_market_cap(
            base_price,
            growth_factor,
            current_supply,
        ) {
            Ok(c) => c,
            Err(e) => {
                return Err(e);
            },
        };
        let average_price: u64 = if current_supply > 0 {
            market_cap / current_supply as u64
        } else {
            0
        };
        Ok(
            CurveAnalysis {
                current_price,
                next_price,
                price_increase,
                price_increase_percentage,
                market_cap,
                average_price,
            },
        )
    }

    /// Price refunded for selling back one item out of `current_supply`: the
    /// price at which the last of them was minted.
    pub fn calculate_sell_price(base_price: u64, growth_factor: u16, current_supply: u32) -> (r:
        Result<u64, ErrorCode>)
        ensures
            current_supply == 0 ==> r == Err::<u64, ErrorCode>(
                ErrorCode::InsufficientEscrowBalance,
            ),
            current_supply > 0 && !valid_curve(base_price, growth_factor) ==> r == Err::<
                u64,
                ErrorCode,
            >(ErrorCode::InvalidAmount),
            current_supply > 0 && valid_curve(base_price, growth_factor) && price_fits(
                base_price as nat,
                growth_factor as nat,
                (current_supply - 1) as nat,
            ) ==> r == Ok::<u64, ErrorCode>(
                price(base_price as nat, growth_factor as nat, (current_supply - 1) as nat) as u64,
            ),
            current_supply > 0 && valid_curve(base_price, growth_factor) && !price_fits(
                base_price as nat,
                growth_factor as nat,
                (current_supply - 1) as nat,
            ) ==> r == Err::<u64, ErrorCode>(ErrorCode::MathOverflow),
    {
        if current_supply == 0 {
            return Err(ErrorCode::InsufficientEscrowBalance);
        }
        Self::calculate_price(base_price, growth_factor, current_supply - 1)
    }
}

} // verus!
