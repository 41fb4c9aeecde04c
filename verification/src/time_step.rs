//! From a time to the counter of its step, and to the seconds left in it.

use vstd::prelude::*;
use crate::defaults::EpochTime;
use crate::error::TotpError;

verus! {

/// The index of the step that holds `now`: the whole steps that have passed
/// since `start_time`.
pub open spec fn step_of(now: int, start_time: int, step_size: int) -> int {
    (now - start_time) / step_size
}

/// The seconds from `now` to the start of the next step: the step size less
/// the seconds already spent in the step. At the first second of a step it is
/// the whole step size.
pub open spec fn remainder_of(now: int, start_time: int, step_size: int) -> int {
    step_size - (now - start_time) % step_size
}

/// What asking for a step leads to: a configuration error for a zero step
/// size, a clock error for a time before the start, else the step.
pub open spec fn step_at(now: EpochTime, start_time: EpochTime, step_size: u64) -> Result<
    u64,
    TotpError,
> {
    if step_size == 0 {
        Err(TotpError::Config)
    } else if now < start_time {
        Err(TotpError::Clock)
    } else {
        Ok(step_of(now as int, start_time as int, step_size as int) as u64)
    }
}

/// What asking for the remaining seconds leads to: the same errors as for a
/// step, else the seconds left.
pub open spec fn remainder_at(now: EpochTime, start_time: EpochTime, step_size: u64) -> Result<
    u64,
    TotpError,
> {
    if step_size == 0 {
        Err(TotpError::Config)
    } else if now < start_time {
        Err(TotpError::Clock)
    } else {
        Ok(remainder_of(now as int, start_time as int, step_size as int) as u64)
    }
}

/// The step that holds `now`. A time before `start_time` is an error, never
/// a wrapped-around counter.
pub fn totp_step_at(now: EpochTime, start_time: EpochTime, step_size: u64) -> (step: Result<
    u64,
    TotpError,
>)
    ensures
        step == step_at(now, start_time, step_size),
        step matches Ok(s) ==> s == step_of(now as int, start_time as int, step_size as int),
{
    if step_size == 0 {
        return Err(TotpError::Config);
    }
    if now < start_time {
        return Err(TotpError::Clock);
    }
    proof {
        lemma_step_bounds(now as int, start_time as int, step_size as int);
    }
    Ok((now - start_time) / step_size)
}

/// The seconds until the next step begins, between 1 and `step_size`.
pub fn totp_remainder_at(now: EpochTime, start_time: EpochTime, step_size: u64) -> (left: Result<
    u64,
    TotpError,
>)
    ensures
        left == remainder_at(now, start_time, step_size),
        left matches Ok(r) ==> r == remainder_of(now as int, start_time as int, step_size as int)
            && 1 <= r <= step_size,
{
    if step_size == 0 {
        return Err(TotpError::Config);
    }
    if now < start_time {
        return Err(TotpError::Clock);
    }
    proof {
        lemma_remainder_bounds(now as int, start_time as int, step_size as int);
    }
    Ok(step_size - (now - start_time) % step_size)
}

/// A step index is at least zero and at most the seconds that have passed.
pub proof fn lemma_step_bounds(now: int, start_time: int, step_size: int)
    requires
        start_time <= now,
        step_size > 0,
    ensures
        0 <= step_of(now, start_time, step_size) <= now - start_time,
{
    let elapsed = now - start_time;
    assert(0 <= elapsed / step_size <= elapsed) by (nonlinear_arith)
        requires
            elapsed >= 0,
            step_size > 0,
    ;
}

/// The seconds left in a step are at least one and at most the step size.
pub proof fn lemma_remainder_bounds(now: int, start_time: int, step_size: int)
    requires
        start_time <= now,
        step_size > 0,
    ensures
        1 <= remainder_of(now, start_time, step_size) <= step_size,
{
    let elapsed = now - start_time;
    assert(0 <= elapsed % step_size < step_size) by (nonlinear_arith)
        requires
            step_size > 0,
    ;
}

/// Steps never go back: a later time lies in the same step or in a later one.
pub proof fn lemma_step_monotonic(earlier: int, later: int, start_time: int, step_size: int)
    requires
        start_time <= earlier <= later,
        step_size > 0,
    ensures
        step_of(earlier, start_time, step_size) <= step_of(later, start_time, step_size),
{
    let a = earlier - start_time;
    let b = later - start_time;
    assert(a / step_size <= b / step_size) by (nonlinear_arith)
        requires
            0 <= a <= b,
            step_size > 0,
    ;
}

/// One step size later the step is exactly one higher, and the seconds left
/// are the same.
pub proof fn lemma_step_increments(now: int, start_time: int, step_size: int)
    requires
        start_time <= now,
        step_size > 0,
    ensures
        step_of(now + step_size, start_time, step_size) == step_of(now, start_time, step_size)
            + 1,
        remainder_of(now + step_size, start_time, step_size) == remainder_of(
            now,
            start_time,
            step_size,
        ),
{
    let a = now - start_time;
    assert((a + step_size) / step_size == a / step_size + 1 && (a + step_size) % step_size == a
        % step_size) by (nonlinear_arith)
        requires
            a >= 0,
            step_size > 0,
    ;
}

/// At the first second of a step the whole step is left, at its last second
/// one second, and at the first second of the next step the whole step again.
pub proof fn lemma_remainder_boundary(start_time: int, step_size: int)
    requires
        step_size > 0,
    ensures
        remainder_of(start_time, start_time, step_size) == step_size,
        remainder_of(start_time + step_size - 1, start_time, step_size) == 1,
        remainder_of(start_time + step_size, start_time, step_size) == step_size,
{
    assert(0int % step_size == 0 && (step_size - 1) % step_size == step_size - 1 && step_size
        % step_size == 0) by (nonlinear_arith)
        requires
            step_size > 0,
    ;
}

/// The seconds left are the distance to the next step: any time sooner lies
/// in the same step, and the time that many seconds later opens the next one.
pub proof fn lemma_remainder_reaches_next_step(
    now: int,
    start_time: int,
    step_size: int,
    wait: int,
)
    requires
        start_time <= now,
        step_size > 0,
        0 <= wait <= remainder_of(now, start_time, step_size),
    ensures
        wait < remainder_of(now, start_time, step_size) ==> step_of(
            now + wait,
            start_time,
            step_size,
        ) == step_of(now, start_time, step_size),
        wait == remainder_of(now, start_time, step_size) ==> step_of(
            now + wait,
            start_time,
            step_size,
        ) == step_of(now, start_time, step_size) + 1,
{
    let a = now - start_time;
    let q = a / step_size;
    let m = a % step_size;
    assert(a == q * step_size + m && 0 <= m < step_size) by (nonlinear_arith)
        requires
            q == a / step_size,
            m == a % step_size,
            step_size > 0,
    ;
    if wait < step_size - m {
        assert((a + wait) / step_size == q) by (nonlinear_arith)
            requires
                a == q * step_size + m,
                0 <= m,
                0 <= wait,
                m + wait < step_size,
                step_size > 0,
        ;
    } else {
        assert((a + wait) / step_size == q + 1) by (nonlinear_arith)
            requires
                a == q * step_size + m,
                m + wait == step_size,
                step_size > 0,
        ;
    }
}

} // verus!
