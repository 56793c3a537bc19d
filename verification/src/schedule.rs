use vstd::prelude::*;
use crate::errors::ErrorCode;

verus! {

/// The whole span of a schedule: `end_time - start_time`, or 0 when the
/// schedule is inverted. A schedule is usable only when its span is positive.
pub open spec fn span_of(start_time: int, end_time: int) -> int {
    if end_time >= start_time {
        end_time - start_time
    } else {
        0
    }
}

/// Clock time elapsed since the schedule started, never negative.
pub open spec fn elapsed_of(start_time: int, now: int) -> int {
    if now >= start_time {
        now - start_time
    } else {
        0
    }
}

/// The portion of `total_amount` unlocked at `now`: everything once the
/// schedule has ended, otherwise the floor of the linear proportion
/// `total_amount * elapsed / span`.
pub open spec fn vested_of(total_amount: int, start_time: int, end_time: int, now: int) -> int
    recommends
        span_of(start_time, end_time) > 0,
{
    if now >= end_time {
        total_amount
    } else {
        total_amount * elapsed_of(start_time, now) / span_of(start_time, end_time)
    }
}

/// What is still owed at `now`: the vested portion minus what was already
/// withdrawn, never negative.
pub open spec fn claimable_of(
    total_amount: int,
    start_time: int,
    end_time: int,
    total_withdrawn: int,
    now: int,
) -> int {
    let v = vested_of(total_amount, start_time, end_time, now);
    if v >= total_withdrawn {
        v - total_withdrawn
    } else {
        0
    }
}

/// Whether the vesting product of a schedule exceeds the `u64` range at `now`,
/// which the engine reports as `CalculationOverflow`. The product is formed
/// only while the schedule is still running.
pub open spec fn vesting_overflows(
    total_amount: u64,
    start_time: i64,
    end_time: i64,
    now: i64,
) -> bool {
    now < end_time && total_amount * elapsed_of(start_time as int, now as int) > u64::MAX
}

/// The vested amount never falls below zero nor exceeds the total.
pub proof fn lemma_vested_bounds(total_amount: int, start_time: int, end_time: int, now: int)
    requires
        span_of(start_time, end_time) > 0,
        total_amount >= 0,
    ensures
        0 <= vested_of(total_amount, start_time, end_time, now) <= total_amount,
{
    let span = span_of(start_time, end_time);
    let e = elapsed_of(start_time, now);
    if now >= end_time {
    } else if total_amount == 0 {
        assert(total_amount * e == 0) by {
            vstd::arithmetic::mul::lemma_mul_by_zero_is_zero(e);
        }
        vstd::arithmetic::div_mod::lemma_div_of0(span);
    } else {
        assert(0 <= e <= span);
        vstd::arithmetic::mul::lemma_mul_nonnegative(total_amount, e);
        vstd::arithmetic::div_mod::lemma_div_pos_is_pos(total_amount * e, span);
        vstd::arithmetic::mul::lemma_mul_left_inequality(total_amount, e, span);
        vstd::arithmetic::div_mod::lemma_div_is_ordered(
            total_amount * e,
            total_amount * span,
            span,
        );
        vstd::arithmetic::div_mod::lemma_div_by_multiple(total_amount, span);
    }
}

/// For a fixed schedule the vested amount is monotonically non-decreasing
/// in the clock.
pub proof fn lemma_vested_monotonic(
    total_amount: int,
    start_time: int,
    end_time: int,
    now1: int,
    now2: int,
)
    requires
        span_of(start_time, end_time) > 0,
        total_amount >= 0,
        now1 <= now2,
    ensures
        vested_of(total_amount, start_time, end_time, now1) <= vested_of(
            total_amount,
            start_time,
            end_time,
            now2,
        ),
{
    let span = span_of(start_time, end_time);
    if now2 >= end_time {
        lemma_vested_bounds(total_amount, start_time, end_time, now1);
    } else if total_amount == 0 {
        let e1 = elapsed_of(start_time, now1);
        let e2 = elapsed_of(start_time, now2);
        assert(total_amount * e1 == 0 && total_amount * e2 == 0) by {
            vstd::arithmetic::mul::lemma_mul_by_zero_is_zero(e1);
            vstd::arithmetic::mul::lemma_mul_by_zero_is_zero(e2);
        }
        vstd::arithmetic::div_mod::lemma_div_of0(span);
    } else {
        let e1 = elapsed_of(start_time, now1);
        let e2 = elapsed_of(start_time, now2);
        assert(e1 <= e2);
        vstd::arithmetic::mul::lemma_mul_left_inequality(total_amount, e1, e2);
        vstd::arithmetic::div_mod::lemma_div_is_ordered(
            total_amount * e1,
            total_amount * e2,
            span,
        );
    }
}

/// Computes the vested amount at `now` for one schedule, exactly as
/// `vested_of` describes it: the whole amount once the schedule has ended,
/// the floored linear proportion while it runs. A schedule without a
/// positive span is rejected, and a vesting product that exceeds the `u64`
/// range is reported rather than wrapped.
pub fn vested_amount(total_amount: u64, start_time: i64, end_time: i64, now: i64) -> (r: Result<
    u64,
    ErrorCode,
>)
    ensures
        span_of(start_time as int, end_time as int) == 0 <==> r == Err::<u64, ErrorCode>(
            ErrorCode::InvalidVestingPeriod,
        ),
        r == Err::<u64, ErrorCode>(ErrorCode::CalculationOverflow) <==> (span_of(
            start_time as int,
            end_time as int,
        ) > 0 && vesting_overflows(total_amount, start_time, end_time, now)),
        r matches Ok(v) ==> v == vested_of(
            total_amount as int,
            start_time as int,
            end_time as int,
            now as int,
        ),
        r is Ok <==> (span_of(start_time as int, end_time as int) > 0 && !vesting_overflows(
            total_amount,
            start_time,
            end_time,
            now,
        )),
{
    let span: u64 = if end_time > start_time {
        ((end_time as i128) - (start_time as i128)) as u64
    } else {
        0
    };
    if span == 0 {
        return Err(ErrorCode::InvalidVestingPeriod);
    }
    if now >= end_time {
        return Ok(total_amount);
    }
    let elapsed: u64 = if now > start_time {
        ((now as i128) - (start_time as i128)) as u64
    } else {
        0
    };
    match total_amount.checked_mul(elapsed) {
        Some(product) => Ok(product / span),
        None => Err(ErrorCode::CalculationOverflow),
    }
}

} // verus!
