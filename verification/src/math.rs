//! Unlock curve engine: pure vesting arithmetic.
//!
//! Every division here rounds down, so the engine under-releases and never
//! over-releases (solvency bias). At or past the end of a stream the unlocked
//! amount is the literal total, never a time-fraction recomputation, so no
//! dust is left behind by rounding.

use vstd::prelude::*;

verus! {

use vstd::arithmetic::div_mod::{
    lemma_div_by_multiple,
    lemma_div_denominator,
    lemma_div_is_ordered,
    lemma_div_nonincreasing,
    lemma_div_pos_is_pos,
    lemma_fundamental_div_mod,
    lemma_mod_division_less_than_divisor,
    lemma_multiply_divide_le,
};
use vstd::arithmetic::mul::{lemma_mul_inequality, lemma_mul_is_commutative};

/// A headroom check by flooring division is exactly a product bound:
/// `a <= m / d` holds precisely when `a * d <= m`.
pub proof fn lemma_le_div_iff_mul_le(a: int, m: int, d: int)
    requires
        0 <= a,
        0 <= m,
        0 < d,
    ensures
        (a <= m / d) <==> (a * d <= m),
{
    if a * d <= m {
        lemma_div_is_ordered(a * d, m, d);
        lemma_div_by_multiple(a, d);
    }
    if a <= m / d {
        lemma_mul_inequality(a, m / d, d);
        lemma_fundamental_div_mod(m, d);
        lemma_mod_division_less_than_divisor(m, d);
        lemma_mul_is_commutative(m / d, d);
    }
}

/// A product `total * elapsed` with `0 <= elapsed <= duration` stays within
/// `[0, total * duration]`, in either operand order.
pub proof fn lemma_mul_window(total: int, elapsed: int, duration: int) by (nonlinear_arith)
    requires
        0 <= total,
        0 <= elapsed <= duration,
    ensures
        0 <= total * elapsed,
        total * elapsed <= total * duration,
        total * elapsed <= duration * total,
{
}

/// Squaring facts for the quadratic curve: with `0 <= e <= d` the squares
/// are ordered and the scaled products stay within `[0, (d*d) * total]`.
pub proof fn lemma_square_window(total: int, e: int, d: int) by (nonlinear_arith)
    requires
        0 <= total,
        0 <= e <= d,
        0 < d,
    ensures
        0 <= e * e <= d * d,
        0 < d * d,
        0 <= total * (e * e),
        total * (e * e) <= total * (d * d),
        total * (e * e) <= (d * d) * total,
{
}

/// Ordering of scaled products: a larger factor gives a larger product.
pub proof fn lemma_mul_mono(total: int, a: int, b: int) by (nonlinear_arith)
    requires
        0 <= total,
        a <= b,
    ensures
        total * a <= total * b,
{
}

/// Ordering of scaled squares: squaring preserves order on non-negatives.
pub proof fn lemma_square_mono(total: int, e1: int, e2: int) by (nonlinear_arith)
    requires
        0 <= total,
        0 <= e1 <= e2,
    ensures
        e1 * e1 <= e2 * e2,
        total * (e1 * e1) <= total * (e2 * e2),
{
}

/// Amount unlocked by a linear curve with no cliff: 0 before `start`, the
/// whole `total` at or after `end`, and `floor(total * elapsed / duration)`
/// in between.
pub open spec fn linear_unlocked(total: int, start: int, end: int, now: int) -> int {
    if now < start {
        0
    } else if now >= end {
        total
    } else {
        total * (now - start) / (end - start)
    }
}

/// Amount unlocked by a linear curve with a cliff: 0 before `cliff`, the
/// whole `total` at or after `end`, and `floor(total * elapsed / duration)`
/// in between (elapsed counts from `start`, not from the cliff).
pub open spec fn cliff_unlocked(total: int, start: int, cliff: int, end: int, now: int) -> int {
    if now < cliff {
        0
    } else if now >= end {
        total
    } else {
        total * (now - start) / (end - start)
    }
}

/// Whether the quadratic-curve computation on these operands overflows
/// `i128` somewhere (the squaring or the final product).
pub open spec fn exponential_overflows(total: int, elapsed: int, duration: int) -> bool {
    elapsed * elapsed > i128::MAX || duration * duration > i128::MAX || total * (elapsed
        * elapsed) > i128::MAX
}

/// Mid-stream value of the quadratic curve:
/// `floor(total * elapsed^2 / duration^2)`.
pub open spec fn exponential_value(total: int, elapsed: int, duration: int) -> int {
    total * (elapsed * elapsed) / (duration * duration)
}

/// Fee taken from `amount` in basis points (10000 bps = 100%); zero for a
/// non-positive amount or a zero rate.
pub open spec fn fee_amount(amount: int, fee_bps: int) -> int {
    if amount <= 0 || fee_bps == 0 {
        0
    } else {
        amount * fee_bps / 10000
    }
}

/// Whether `n` is a power of two (1, 2, 4, ...); false for zero and for
/// negative values.
pub open spec fn power_of_two(n: int) -> bool
    decreases n,
{
    if n <= 0 {
        false
    } else if n == 1 {
        true
    } else {
        n % 2 == 0 && power_of_two(n / 2)
    }
}

/// Linearly unlocked amount at `current_time`, rounding down.
pub fn calculate_unlocked_amount(
    total_amount: i128,
    start_time: u64,
    end_time: u64,
    current_time: u64,
) -> (r: i128)
    requires
        total_amount >= 0,
        start_time < end_time ==> total_amount * ((end_time - start_time) as int) <= i128::MAX,
    ensures
        r == linear_unlocked(
            total_amount as int,
            start_time as int,
            end_time as int,
            current_time as int,
        ),
{
    if current_time < start_time {
        return 0;
    }
    if current_time >= end_time {
        return total_amount;
    }
    let elapsed_time = (current_time - start_time) as i128;
    let total_duration = (end_time - start_time) as i128;
    proof {
        lemma_mul_window(total_amount as int, elapsed_time as int, total_duration as int);
        lemma_div_pos_is_pos(total_amount * elapsed_time, total_duration as int);
        lemma_multiply_divide_le(
            total_amount * elapsed_time,
            total_duration as int,
            total_amount as int,
        );
    }
    (total_amount * elapsed_time) / total_duration
}

/// Linearly unlocked amount with a cliff, rounding down. Before the cliff
/// nothing is unlocked; at or past `end` the result is exactly `total_amount`.
pub fn calculate_unlocked(total_amount: i128, start: u64, cliff: u64, end: u64, now: u64) -> (r:
    i128)
    requires
        total_amount >= 0,
        start <= cliff,
        start < end ==> total_amount * ((end - start) as int) <= i128::MAX,
    ensures
        r == cliff_unlocked(total_amount as int, start as int, cliff as int, end as int, now as int),
{
    if now < cliff {
        return 0;
    }
    if now >= end {
        return total_amount;
    }
    let elapsed = (now - start) as i128;
    let total_duration = (end - start) as i128;
    proof {
        lemma_mul_window(total_amount as int, elapsed as int, total_duration as int);
        lemma_div_pos_is_pos(total_amount * elapsed, total_duration as int);
        lemma_multiply_divide_le(
            total_amount * elapsed,
            total_duration as int,
            total_amount as int,
        );
    }
    (total_amount * elapsed) / total_duration
}

/// Quadratically unlocked amount, accelerating toward `end_time`. Overflow of
/// the squaring or of the final product is reported as `Err(())`, a distinct
/// failure, never wrapped silently; the caller decides the fallback.
pub fn calculate_exponential_unlocked(
    total_amount: i128,
    start_time: u64,
    end_time: u64,
    current_time: u64,
) -> (r: Result<i128, ()>)
    requires
        total_amount >= 0,
    ensures
        current_time < start_time ==> r == Ok::<i128, ()>(0),
        start_time <= current_time && current_time >= end_time ==> r == Ok::<i128, ()>(
            total_amount,
        ),
        start_time <= current_time < end_time ==> {
            let elapsed = current_time - start_time;
            let duration = end_time - start_time;
            if exponential_overflows(total_amount as int, elapsed as int, duration as int) {
                r is Err
            } else {
                r == Ok::<i128, ()>(
                    exponential_value(total_amount as int, elapsed as int, duration as int) as i128,
                )
            }
        },
{
    if current_time < start_time {
        return Ok(0);
    }
    if current_time >= end_time {
        return Ok(total_amount);
    }
    let elapsed = (current_time - start_time) as i128;
    let duration = (end_time - start_time) as i128;

    let elapsed_squared = match elapsed.checked_mul(elapsed) {
        Some(v) => v,
        None => {
            return Err(());
        },
    };
    let duration_squared = match duration.checked_mul(duration) {
        Some(v) => v,
        None => {
            return Err(());
        },
    };
    let numerator = match total_amount.checked_mul(elapsed_squared) {
        Some(v) => v,
        None => {
            return Err(());
        },
    };
    proof {
        assert(duration_squared > 0 && numerator >= 0) by (nonlinear_arith)
            requires
                elapsed >= 0,
                duration >= 1,
                total_amount >= 0,
                duration_squared == duration * duration,
                numerator == total_amount * (elapsed * elapsed),
        ;
        lemma_div_pos_is_pos(numerator as int, duration_squared as int);
        lemma_div_nonincreasing(numerator as int, duration_squared as int);
    }
    Ok(numerator / duration_squared)
}

/// Difference between what is unlocked and what was already withdrawn.
pub fn calculate_withdrawable_amount(unlocked_amount: i128, withdrawn_amount: i128) -> (r: i128)
    requires
        i128::MIN <= unlocked_amount - withdrawn_amount <= i128::MAX,
    ensures
        r == unlocked_amount - withdrawn_amount,
{
    unlocked_amount - withdrawn_amount
}

/// Withdrawable amount under a linear curve with a cliff. At or past `end`
/// this is exactly the remaining balance `total_amount - withdrawn_amount`,
/// so the final withdrawal clears every rounding remainder.
pub fn calculate_withdrawable(
    total_amount: i128,
    withdrawn_amount: i128,
    start: u64,
    cliff: u64,
    end: u64,
    now: u64,
) -> (r: i128)
    requires
        total_amount >= 0,
        start <= cliff < end,
        total_amount * ((end - start) as int) <= i128::MAX,
        i128::MIN <= cliff_unlocked(
            total_amount as int,
            start as int,
            cliff as int,
            end as int,
            now as int,
        ) - withdrawn_amount <= i128::MAX,
    ensures
        r == cliff_unlocked(
            total_amount as int,
            start as int,
            cliff as int,
            end as int,
            now as int,
        ) - withdrawn_amount,
{
    if now >= end {
        return total_amount - withdrawn_amount;
    }
    let total_unlocked = calculate_unlocked(total_amount, start, cliff, end, now);
    total_unlocked - withdrawn_amount
}

/// Fee on `amount` in basis points (100 bps = 1%). Non-positive amounts and
/// a zero rate give a zero fee.
pub fn calculate_fee(amount: i128, fee_bps: u32) -> (r: i128)
    requires
        amount > 0 ==> amount * fee_bps <= i128::MAX,
    ensures
        r == fee_amount(amount as int, fee_bps as int),
{
    if fee_bps == 0 || amount <= 0 {
        return 0;
    }
    proof {
        lemma_mul_window(amount as int, fee_bps as int, fee_bps as int);
        lemma_div_pos_is_pos(amount * fee_bps, 10000int);
        lemma_div_nonincreasing(amount * fee_bps, 10000int);
    }
    (amount * (fee_bps as i128)) / 10_000
}

/// Whether `n` is a power of two; false for zero.
pub fn is_power_of_two(n: u64) -> (r: bool)
    ensures
        r == power_of_two(n as int),
{
    if n == 0 {
        return false;
    }
    let mut m: u64 = n;
    while m % 2 == 0
        invariant
            m >= 1,
            power_of_two(n as int) == power_of_two(m as int),
        decreases m,
    {
        m = m / 2;
    }
    m == 1
}

/// Boundedness of the linear curve: for a non-negative total the unlocked
/// amount always lies in `[0, total]`.
pub proof fn lemma_linear_unlocked_bounds(total: int, start: int, end: int, now: int)
    requires
        total >= 0,
    ensures
        0 <= linear_unlocked(total, start, end, now) <= total,
{
    if start <= now < end {
        let elapsed = now - start;
        let duration = end - start;
        lemma_mul_window(total, elapsed, duration);
        lemma_div_pos_is_pos(total * elapsed, duration);
        lemma_multiply_divide_le(total * elapsed, duration, total);
    }
}

/// Boundedness of the cliff curve: for a non-negative total and a cliff at
/// or after `start`, the unlocked amount always lies in `[0, total]`.
pub proof fn lemma_cliff_unlocked_bounds(total: int, start: int, cliff: int, end: int, now: int)
    requires
        total >= 0,
        start <= cliff,
    ensures
        0 <= cliff_unlocked(total, start, cliff, end, now) <= total,
{
    if cliff <= now < end {
        let elapsed = now - start;
        let duration = end - start;
        lemma_mul_window(total, elapsed, duration);
        lemma_div_pos_is_pos(total * elapsed, duration);
        lemma_multiply_divide_le(total * elapsed, duration, total);
    }
}

/// Monotonicity of the linear curve: more time never unlocks less.
pub proof fn lemma_linear_unlocked_monotonic(total: int, start: int, end: int, t1: int, t2: int)
    requires
        total >= 0,
        t1 <= t2,
    ensures
        linear_unlocked(total, start, end, t1) <= linear_unlocked(total, start, end, t2),
{
    lemma_linear_unlocked_bounds(total, start, end, t1);
    lemma_linear_unlocked_bounds(total, start, end, t2);
    if start <= t1 < end && start <= t2 < end {
        let duration = end - start;
        lemma_mul_mono(total, t1 - start, t2 - start);
        lemma_div_is_ordered(total * (t1 - start), total * (t2 - start), duration);
    }
}

/// Monotonicity of the cliff curve: more time never unlocks less.
pub proof fn lemma_cliff_unlocked_monotonic(
    total: int,
    start: int,
    cliff: int,
    end: int,
    t1: int,
    t2: int,
)
    requires
        total >= 0,
        start <= cliff,
        t1 <= t2,
    ensures
        cliff_unlocked(total, start, cliff, end, t1) <= cliff_unlocked(total, start, cliff, end, t2),
{
    lemma_cliff_unlocked_bounds(total, start, cliff, end, t1);
    lemma_cliff_unlocked_bounds(total, start, cliff, end, t2);
    if cliff <= t1 < end && cliff <= t2 < end {
        let duration = end - start;
        lemma_mul_mono(total, t1 - start, t2 - start);
        lemma_div_is_ordered(total * (t1 - start), total * (t2 - start), duration);
    }
}

/// Boundedness of the quadratic curve on mid-stream operands:
/// `0 <= total * elapsed^2 / duration^2 <= total`.
pub proof fn lemma_exponential_value_bounds(total: int, elapsed: int, duration: int)
    requires
        total >= 0,
        0 <= elapsed <= duration,
        0 < duration,
    ensures
        0 <= exponential_value(total, elapsed, duration) <= total,
{
    lemma_square_window(total, elapsed, duration);
    lemma_div_pos_is_pos(total * (elapsed * elapsed), duration * duration);
    lemma_multiply_divide_le(total * (elapsed * elapsed), duration * duration, total);
}

/// Monotonicity of the quadratic curve in elapsed time.
pub proof fn lemma_exponential_value_monotonic(total: int, e1: int, e2: int, duration: int)
    requires
        total >= 0,
        0 <= e1 <= e2,
        0 < duration,
    ensures
        exponential_value(total, e1, duration) <= exponential_value(total, e2, duration),
{
    lemma_square_mono(total, e1, e2);
    assert(duration * duration > 0) by (nonlinear_arith)
        requires
            0 < duration,
    ;
    lemma_div_is_ordered(total * (e1 * e1), total * (e2 * e2), duration * duration);
}

/// The quadratic curve never runs ahead of the linear curve mid-stream:
/// with `elapsed <= duration`, `total*elapsed^2/duration^2 <= total*elapsed/duration`.
pub proof fn lemma_exponential_below_linear(total: int, elapsed: int, duration: int)
    requires
        total >= 0,
        0 <= elapsed <= duration,
        0 < duration,
    ensures
        exponential_value(total, elapsed, duration) <= total * elapsed / duration,
{
    let x = total * elapsed;
    assert(0 <= x && total * (elapsed * elapsed) <= (x * duration) && duration * duration > 0)
        by (nonlinear_arith)
        requires
            total >= 0,
            0 <= elapsed <= duration,
            0 < duration,
            x == total * elapsed,
    ;
    lemma_div_is_ordered(total * (elapsed * elapsed), x * duration, duration * duration);
    lemma_div_denominator(x * duration, duration, duration);
    lemma_div_by_multiple(x, duration);
}

/// Overflow of the quadratic curve is upward closed in elapsed time: if the
/// computation overflows at `e1`, it overflows at every later `e2`.
pub proof fn lemma_exponential_overflow_monotonic(total: int, e1: int, e2: int, duration: int)
    requires
        total >= 0,
        0 <= e1 <= e2,
        exponential_overflows(total, e1, duration),
    ensures
        exponential_overflows(total, e2, duration),
{
    lemma_square_mono(total, e1, e2);
}

/// Boundedness of the fee: a rate of at most 10000 bps never takes more than
/// the whole amount.
pub proof fn lemma_fee_bounds(amount: int, fee_bps: int)
    requires
        0 <= fee_bps <= 10000,
    ensures
        0 <= fee_amount(amount, fee_bps),
        amount >= 0 ==> fee_amount(amount, fee_bps) <= amount,
{
    if amount > 0 && fee_bps != 0 {
        lemma_mul_window(amount, fee_bps, 10000);
        lemma_div_pos_is_pos(amount * fee_bps, 10000);
        lemma_multiply_divide_le(amount * fee_bps, 10000, amount);
    }
}

} // verus!
