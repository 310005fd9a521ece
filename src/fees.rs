use vstd::prelude::*;

use crate::errors::ErrorCode;

verus! {

/// Sum of a sequence of basis-point shares.
pub open spec fn sum_bp(s: Seq<u16>) -> int
    decreases s.len(),
{
    if s.len() == 0 {
        0
    } else {
        sum_bp(s.drop_last()) + s.last()
    }
}

/// Sum of a sequence of amounts.
pub open spec fn sum_amounts(s: Seq<u64>) -> int
    decreases s.len(),
{
    if s.len() == 0 {
        0
    } else {
        sum_amounts(s.drop_last()) + s.last()
    }
}

proof fn lemma_sum_bp_take(s: Seq<u16>, i: int)
    requires
        0 <= i < s.len(),
    ensures
        sum_bp(s.take(i + 1)) == sum_bp(s.take(i)) + s[i],
{
    assert(s.take(i + 1).drop_last() =~= s.take(i));
}

proof fn lemma_sum_bp_prefix_le(s: Seq<u16>, i: int)
    requires
        0 <= i <= s.len(),
    ensures
        sum_bp(s.take(i)) <= sum_bp(s),
    decreases s.len() - i,
{
    if i < s.len() {
        lemma_sum_bp_take(s, i);
        lemma_sum_bp_prefix_le(s, i + 1);
    } else {
        assert(s.take(i) =~= s);
    }
}

pub proof fn lemma_sum_amounts_push(s: Seq<u64>, x: u64)
    ensures
        sum_amounts(s.push(x)) == sum_amounts(s) + x,
{
    assert(s.push(x).drop_last() =~= s);
}

/// A fee of `fee_bp` basis points on `amount`, rounded down; the product
/// `amount * fee_bp` must fit in a `u64`.
pub fn calculate_transfer_fee(amount: u64, fee_bp: u16) -> (r: Result<u64, ErrorCode>)
    ensures
        amount * fee_bp <= u64::MAX ==> r == Ok::<u64, ErrorCode>(
            (amount * fee_bp / 10000) as u64,
        ),
        amount * fee_bp > u64::MAX ==> r == Err::<u64, ErrorCode>(ErrorCode::MathOverflow),
{
    match amount.checked_mul(fee_bp as u64) {
        Some(v) => Ok(v / 10000),
        None => Err(ErrorCode::MathOverflow),
    }
}

/// Splits `total` by shares in basis points that must add up to exactly 100%:
/// every part but the last is its share rounded down, the last part takes what
/// remains, so the parts add up to `total`.
pub fn split_amount(total: u64, percentages: &[u16]) -> (r: Result<Vec<u64>, ErrorCode>)
    ensures
        sum_bp(percentages@) != 10000 ==> r == Err::<Vec<u64>, ErrorCode>(
            ErrorCode::InvalidAmount,
        ),
        sum_bp(percentages@) == 10000 ==> (r is Ok <==> forall|j: int|
            0 <= j < percentages@.len() - 1 ==> total * #[trigger] percentages@[j] <= u64::MAX),
        r is Err ==> r == Err::<Vec<u64>, ErrorCode>(ErrorCode::InvalidAmount) || r == Err::<
            Vec<u64>,
            ErrorCode,
        >(ErrorCode::MathOverflow),
        r matches Ok(v) ==> {
            &&& v@.len() == percentages@.len()
            &&& forall|j: int|
                0 <= j < percentages@.len() - 1 ==> #[trigger] v@[j] == total * percentages@[j]
                    / 10000
            &&& sum_amounts(v@) == total
        },
{
    let n = percentages.len();
    let mut sum: u64 = 0;
    let mut i: usize = 0;
    while i < n
        invariant
            i <= n,
            n == percentages@.len(),
            sum == sum_bp(percentages@.take(i as int)),
            sum <= 10000,
        decreases n - i,
    {
        proof {
            lemma_sum_bp_take(percentages@, i as int);
        }
        sum = sum + percentages[i] as u64;
        if sum > 10000 {
            proof {
                lemma_sum_bp_prefix_le(percentages@, i + 1);
            }
            return Err(ErrorCode::InvalidAmount);
        }
        i = i + 1;
    }
    proof {
        assert(percentages@.take(n as int) =~= percentages@);
    }
    if sum != 10000 {
        return Err(ErrorCode::InvalidAmount);
    }
    let ghost p = percentages@;
    let mut amounts: Vec<u64> = Vec::new();
    let mut remaining: u64 = total;
    let mut i: usize = 0;
    while i < n
        invariant
            0 < n,
            i <= n,
            n == p.len(),
            p == percentages@,
            sum_bp(p) == 10000,
            amounts@.len() == i,
            forall|j: int| 0 <= j < i && j < n - 1 ==> total * #[trigger] p[j] <= u64::MAX,
            forall|j: int|
                0 <= j < i && j < n - 1 ==> #[trigger] amounts@[j] == total * p[j] / 10000,
            remaining == total - sum_amounts(amounts@),
            i < n ==> sum_amounts(amounts@) * 10000 <= total * sum_bp(p.take(i as int)),
            i == n ==> remaining == 0,
        decreases n - i,
    {
        let amount: u64;
        if i == n - 1 {
            amount = remaining;
        } else {
            match total.checked_mul(percentages[i] as u64) {
                Some(x) => {
                    amount = x / 10000;
                },
                None => {
                    return Err(ErrorCode::MathOverflow);
                },
            }
            proof {
                let s = sum_amounts(amounts@);
                let pi = sum_bp(p.take(i as int));
                lemma_sum_bp_take(p, i as int);
                lemma_sum_bp_prefix_le(p, i + 1);
                assert(total * pi + total * p[i as int] == total * (pi + p[i as int]))
                    by (nonlinear_arith);
                assert(total * (pi + p[i as int]) <= total * 10000) by (nonlinear_arith)
                    requires
                        pi + p[i as int] <= 10000,
                ;
                assert(amount * 10000 <= total * p[i as int]);
                assert((s + amount) * 10000 <= total * sum_bp(p.take(i + 1)));
            }
        }
        proof {
            lemma_sum_amounts_push(amounts@, amount);
        }
        amounts.push(amount);
        remaining = remaining - amount;
        i = i + 1;
    }
    Ok(amounts)
}

} // verus!
