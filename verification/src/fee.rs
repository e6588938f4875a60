use crate::error::ProcessError;
use vstd::prelude::*;

verus! {

/// The batch total is divided by this many base units before the rate is applied.
pub const FEE_UNIT: u64 = 10_000;

/// The platform fee on a batch total: the rate is charged once for every whole
/// `FEE_UNIT` in the total. The division truncates before the multiplication, so
/// a total under one unit is free of charge whatever the rate.
pub open spec fn fee_of(total: int, rate: int) -> int {
    (total / 10_000) * rate
}

/// The sum of a batch of amounts, as a mathematical integer.
pub open spec fn sum(amounts: Seq<u64>) -> int
    decreases amounts.len(),
{
    if amounts.len() == 0 {
        0
    } else {
        sum(amounts.drop_last()) + amounts.last()
    }
}

/// A prefix of a batch never sums to more than the batch.
pub proof fn lemma_sum_prefix(amounts: Seq<u64>, k: int)
    requires
        0 <= k <= amounts.len(),
    ensures
        0 <= sum(amounts.take(k)) <= sum(amounts),
    decreases amounts.len(),
{
    if k == amounts.len() {
        assert(amounts.take(k) =~= amounts);
        if amounts.len() > 0 {
            lemma_sum_prefix(amounts.drop_last(), k - 1);
            assert(amounts.drop_last().take(k - 1) =~= amounts.drop_last());
        }
    } else {
        lemma_sum_prefix(amounts.drop_last(), k);
        assert(amounts.drop_last().take(k) =~= amounts.take(k));
    }
}

/// The fee on `total` at `rate`, or `ArithmeticOverflow` where it does not fit
/// in 64 bits.
pub fn fee(total: u64, rate: u64) -> (r: Result<u64, ProcessError>)
    ensures
        fee_of(total as int, rate as int) <= u64::MAX ==> r == Ok::<u64, ProcessError>(
            fee_of(total as int, rate as int) as u64,
        ),
        fee_of(total as int, rate as int) > u64::MAX ==> r == Err::<u64, ProcessError>(
            ProcessError::ArithmeticOverflow,
        ),
{
    let units: u64 = total / FEE_UNIT;
    match units.checked_mul(rate) {
        Some(f) => Ok(f),
        None => Err(ProcessError::ArithmeticOverflow),
    }
}

/// The sum of the amounts, or `ArithmeticOverflow` where it does not fit in
/// 64 bits.
pub fn total(amounts: &[u64]) -> (r: Result<u64, ProcessError>)
    ensures
        sum(amounts@) <= u64::MAX ==> r == Ok::<u64, ProcessError>(sum(amounts@) as u64),
        sum(amounts@) > u64::MAX ==> r == Err::<u64, ProcessError>(
            ProcessError::ArithmeticOverflow,
        ),
{
    let mut acc: u64 = 0;
    let mut i: usize = 0;
    while i < amounts.len()
        invariant
            0 <= i <= amounts.len(),
            acc == sum(amounts@.take(i as int)),
        decreases amounts.len() - i,
    {
        proof {
            assert(amounts@.take(i + 1).drop_last() =~= amounts@.take(i as int));
            lemma_sum_prefix(amounts@, i + 1);
        }
        match acc.checked_add(amounts[i]) {
            Some(s) => {
                acc = s;
            },
            None => {
                return Err(ProcessError::ArithmeticOverflow);
            },
        }
        i += 1;
    }
    proof {
        assert(amounts@.take(i as int) =~= amounts@);
    }
    Ok(acc)
}

} // verus!
