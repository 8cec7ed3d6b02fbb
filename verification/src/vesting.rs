use vstd::prelude::*;
use crate::error::LockError;
use crate::state::SECONDS_PER_DAY;

verus! {

/// Sum of a sequence of per-user allocation amounts.
pub open spec fn sum_of(amounts: Seq<u64>) -> int
    decreases amounts.len(),
{
    if amounts.len() == 0 {
        0
    } else {
        sum_of(amounts.drop_last()) + amounts.last()
    }
}

/// Extending a prefix sum by one element adds exactly that element.
pub proof fn lemma_sum_of_take_step(amounts: Seq<u64>, i: int)
    requires
        0 <= i < amounts.len(),
    ensures
        sum_of(amounts.take(i + 1)) == sum_of(amounts.take(i)) + amounts[i],
{
    assert(amounts.take(i + 1).drop_last() =~= amounts.take(i));
}

/// Every prefix sum is bounded by the full sum.
pub proof fn lemma_sum_of_take_bound(amounts: Seq<u64>, i: int)
    requires
        0 <= i <= amounts.len(),
    ensures
        sum_of(amounts.take(i)) <= sum_of(amounts),
    decreases amounts.len() - i,
{
    if i == amounts.len() {
        assert(amounts.take(i) =~= amounts);
    } else {
        lemma_sum_of_take_step(amounts, i);
        lemma_sum_of_take_bound(amounts, i + 1);
    }
}

/// The index of the last occurrence of `who` in `list`, or -1 when `who`
/// does not occur.  The claim path resolves duplicate beneficiary entries
/// to the last one.
pub open spec fn last_index_of(list: Seq<u64>, who: u64) -> int
    decreases list.len(),
{
    if list.len() == 0 {
        -1
    } else if list.last() == who {
        list.len() - 1
    } else {
        last_index_of(list.drop_last(), who)
    }
}

/// `last_index_of` points at an occurrence, is the last one, and is
/// nonnegative exactly when `who` occurs at all.
pub proof fn lemma_last_index_of_props(list: Seq<u64>, who: u64)
    ensures
        last_index_of(list, who) >= -1,
        last_index_of(list, who) >= 0 <==> list.contains(who),
        last_index_of(list, who) >= 0 ==> last_index_of(list, who) < list.len() && list[
            last_index_of(list, who)
        ] == who,
        forall|j: int|
            last_index_of(list, who) < j < list.len() ==> list[j] != who,
    decreases list.len(),
{
    if list.len() == 0 {
    } else if list.last() == who {
        assert(list.contains(who)) by {
            assert(list[list.len() - 1] == who);
        }
    } else {
        let d = list.drop_last();
        lemma_last_index_of_props(d, who);
        let idx = last_index_of(list, who);
        assert(idx == last_index_of(d, who));
        assert(forall|j: int| 0 <= j < list.len() - 1 ==> list[j] == d[j]);
        if idx >= 0 {
            assert(list.contains(who)) by {
                assert(list[idx] == d[idx] && d[idx] == who);
            }
        } else {
            assert(!list.contains(who)) by {
                assert forall|j: int| 0 <= j < list.len() implies list[j] != who by {
                    if j < list.len() - 1 {
                        if d[j] == who {
                            assert(d.contains(who));
                        }
                    }
                }
            }
        }
        assert forall|j: int| idx < j < list.len() implies list[j] != who by {
            if j < list.len() - 1 {
                if d[j] == who {
                    assert(d.contains(who));
                }
            }
        }
    }
}

/// Growing the scanned prefix by one element either moves the last match
/// to that element or keeps the previous one.
pub proof fn lemma_last_index_of_take_step(list: Seq<u64>, who: u64, i: int)
    requires
        0 <= i < list.len(),
    ensures
        last_index_of(list.take(i + 1), who) == if list[i] == who {
            i
        } else {
            last_index_of(list.take(i), who)
        },
{
    assert(list.take(i + 1).drop_last() =~= list.take(i));
}

/// Number of vesting tranches that follow the first release: the percent
/// left after the first release divided by the per-tranche percent,
/// rounded up.  A zero per-tranche percent saturates to 255, matching
/// the deployed program's byte-sized count.
pub open spec fn max_tranches(first_release: u64, amount_per_vesting: u64) -> int
    recommends
        first_release <= 100,
{
    if amount_per_vesting == 0 {
        255
    } else {
        (100 - first_release + amount_per_vesting - 1) / (amount_per_vesting as int)
    }
}

/// The tranche the clock has reached, given the seconds elapsed past the
/// first tranche window: the quotient of the two, saturated to the
/// byte-sized count and clamped to the total number of tranches.  A zero
/// window saturates, matching the deployed program.
pub open spec fn tranche_index(elapsed: int, window: int, total: int) -> int {
    let raw = if window == 0 {
        255
    } else {
        elapsed / window
    };
    let capped = if raw > 255 {
        255
    } else {
        raw
    };
    if capped > total {
        total
    } else {
        capped
    }
}

/// The cumulative percent due once `index` tranches have passed: the
/// first release plus `index` per-tranche steps, capped at 100.
pub open spec fn target_percent(first_release: u64, amount_per_vesting: u64, index: int) -> int {
    let p = first_release + amount_per_vesting * index;
    if p > 100 {
        100
    } else {
        p
    }
}

/// The deterministic release decision of one claim, from the schedule,
/// the cumulative percent already claimed, and the seconds `rest_time`
/// elapsed since the unlock boundary.  On success yields (percent newly
/// released, new cumulative percent).  Within the first tranche window
/// the claim is the first release, owed once; past it, the claim is the
/// difference between the tranche target and what was already claimed.
pub open spec fn claim_outcome(
    first_release: u64,
    amount_per_vesting: u64,
    vesting_period: u64,
    claimed: u8,
    rest_time: int,
) -> Result<(u8, u8), LockError>
    recommends
        first_release <= 100,
        amount_per_vesting <= 100,
        claimed <= 100,
{
    let window = vesting_period as int * SECONDS_PER_DAY as int;
    let elapsed = rest_time - window;
    if elapsed > 0 {
        let target = target_percent(
            first_release,
            amount_per_vesting,
            tranche_index(elapsed, window, max_tranches(first_release, amount_per_vesting)),
        );
        if target > claimed {
            Ok((((target - claimed) as u8), (target as u8)))
        } else {
            Err(LockError::NotPerVestingUnlockTime)
        }
    } else {
        if claimed > 0 {
            Err(LockError::AlreadyDidFirstClaim)
        } else {
            Ok(((first_release as u8), (first_release as u8)))
        }
    }
}

/// Amount released for `percent` of the allocation `amount`, floored.
pub open spec fn payout(amount: u64, percent: u8) -> u64
    recommends
        percent <= 100,
{
    ((amount as int) * (percent as int) / 100) as u64
}

/// A payout of at most 100 percent never exceeds the allocation.
pub proof fn lemma_payout_le_amount(amount: u64, percent: u8)
    requires
        percent <= 100,
    ensures
        (amount as int) * (percent as int) / 100 <= amount,
        payout(amount, percent) <= amount,
{
    assert((amount as int) * (percent as int) / 100 <= amount) by (nonlinear_arith)
        requires
            percent <= 100,
    ;
}

/// Computes the release decision of one claim; exactly [`claim_outcome`].
pub fn vesting_release(
    first_release: u64,
    amount_per_vesting: u64,
    vesting_period: u64,
    claimed: u8,
    rest_time: u64,
) -> (result: Result<(u8, u8), LockError>)
    requires
        first_release <= 100,
        amount_per_vesting <= 100,
        claimed <= 100,
        vesting_period as int * SECONDS_PER_DAY as int <= i64::MAX as int,
        rest_time as int <= i64::MAX as int,
    ensures
        result == claim_outcome(
            first_release,
            amount_per_vesting,
            vesting_period,
            claimed,
            rest_time as int,
        ),
        result matches Ok(p) ==> claimed <= p.1 <= 100 && p.0 == p.1 - claimed,
{
    let window: u64 = vesting_period * SECONDS_PER_DAY;
    let elapsed: i64 = (rest_time as i64) - (window as i64);
    if elapsed > 0 {
        let total: u64 = if amount_per_vesting == 0 {
            255
        } else {
            (100 - first_release + amount_per_vesting - 1) / amount_per_vesting
        };
        let raw: u64 = if window == 0 {
            255
        } else {
            (elapsed as u64) / window
        };
        let capped: u64 = if raw > 255 {
            255
        } else {
            raw
        };
        let index: u64 = if capped > total {
            total
        } else {
            capped
        };
        proof {
            assert(amount_per_vesting as int * index as int <= 25500) by (nonlinear_arith)
                requires
                    amount_per_vesting <= 100 && index <= 255,
            ;
        }
        let unclamped: u64 = first_release + amount_per_vesting * index;
        let target: u64 = if unclamped > 100 {
            100
        } else {
            unclamped
        };
        if target > claimed as u64 {
            let target8: u8 = target as u8;
            Ok((target8 - claimed, target8))
        } else {
            Err(LockError::NotPerVestingUnlockTime)
        }
    } else {
        if claimed > 0 {
            Err(LockError::AlreadyDidFirstClaim)
        } else {
            Ok((first_release as u8, first_release as u8))
        }
    }
}

/// Computes the token amount for `percent` of `amount`; exactly
/// [`payout`], and never more than `amount` itself.
pub fn payout_amount(amount: u64, percent: u8) -> (result: u64)
    requires
        percent <= 100,
    ensures
        result == payout(amount, percent),
        result <= amount,
{
    proof {
        lemma_payout_le_amount(amount, percent);
        assert((amount as int) * (percent as int) <= u64::MAX as int * 100) by (nonlinear_arith)
            requires
                amount <= u64::MAX && percent <= 100,
        ;
    }
    let wide: u128 = (amount as u128) * (percent as u128);
    let quotient: u128 = wide / 100;
    quotient as u64
}

} // verus!
