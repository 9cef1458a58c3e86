//! Stream-level unlock computation: composes the curve engine with pause
//! accounting, an optional cliff and milestone caps.
//!
//! While a stream is paused its effective time freezes at the pause moment,
//! and the end is compared shifted by the total paused duration, so a
//! resumed stream continues exactly where it stopped instead of losing
//! entitlement.

use vstd::prelude::*;

verus! {

use crate::math::{
    exponential_overflows,
    exponential_value,
    lemma_exponential_below_linear,
    lemma_exponential_overflow_monotonic,
    lemma_exponential_value_bounds,
    lemma_exponential_value_monotonic,
    lemma_linear_unlocked_bounds,
    lemma_linear_unlocked_monotonic,
    lemma_mul_window,
    linear_unlocked,
};
use crate::types::{CurveType, Milestone, Stream};
use vstd::arithmetic::div_mod::{
    lemma_div_by_multiple,
    lemma_div_pos_is_pos,
    lemma_multiply_divide_le,
};

/// Bounds for one linear scaling step `total * part / whole` with
/// `0 <= part <= whole`: the product fits under `total * whole` and the
/// quotient lies in `[0, total]`.
proof fn lemma_scaling_bounds(total: int, part: int, whole: int)
    requires
        0 <= total,
        0 <= part <= whole,
        0 < whole,
    ensures
        0 <= total * part <= total * whole,
        0 <= total * part / whole <= total,
{
    lemma_mul_window(total, part, whole);
    lemma_div_pos_is_pos(total * part, whole);
    lemma_multiply_divide_le(total * part, whole, total);
}

/// Mid-stream value of the configured curve on an effective elapsed time in
/// `(0, duration)`. A quadratic computation that would overflow falls back
/// to the linear value instead of failing the whole read.
pub open spec fn curve_amount(curve: CurveType, total: int, elapsed: int, duration: int) -> int {
    match curve {
        CurveType::Linear => total * elapsed / duration,
        CurveType::Exponential => if exponential_overflows(total, elapsed, duration) {
            total * elapsed / duration
        } else {
            exponential_value(total, elapsed, duration)
        },
    }
}

/// Milestone cap over the first `n` milestones: the largest percentage cap
/// among those whose timestamp has been reached, or 0 when none has.
pub open spec fn milestone_cap_upto(ms: Seq<Milestone>, total: int, t: int, n: int) -> int
    decreases n,
{
    if n <= 0 {
        0
    } else {
        let prev = milestone_cap_upto(ms, total, t, n - 1);
        let m = ms[n - 1];
        if m.timestamp <= t {
            let c = total * (m.percentage as int) / 100;
            if c > prev {
                c
            } else {
                prev
            }
        } else {
            prev
        }
    }
}

/// Milestone cap over all milestones at effective time `t`.
pub open spec fn milestone_cap(ms: Seq<Milestone>, total: int, t: int) -> int {
    milestone_cap_upto(ms, total, t, ms.len() as int)
}

impl Stream {
    /// The time the unlock computation sees: frozen at the pause moment
    /// while paused, the actual time otherwise.
    pub open spec fn effective_time(self, now: int) -> int {
        if self.is_paused {
            self.paused_time as int
        } else {
            now
        }
    }

    /// The end compared against effective time: shifted by every second
    /// spent paused.
    pub open spec fn adjusted_end(self) -> int {
        self.end_time + self.total_paused_duration
    }

    /// Elapsed vesting time net of pauses, clamped below at zero by the
    /// caller's branch structure.
    pub open spec fn effective_elapsed(self, now: int) -> int {
        self.effective_time(now) - self.start_time - self.total_paused_duration
    }

    /// Amount this stream has unlocked at `now`: 0 before `start_time` or
    /// before the cliff; the literal total once effective time passes the
    /// pause-shifted end; otherwise the curve value on effective elapsed
    /// time, capped by the reached milestones when any exist.
    pub open spec fn unlocked(self, now: int) -> int {
        if now <= self.start_time {
            0
        } else if (match self.cliff_time {
            Some(c) => now < c,
            None => false,
        }) {
            0
        } else {
            let t = self.effective_time(now);
            if t >= self.adjusted_end() {
                self.total_amount as int
            } else {
                let ee = self.effective_elapsed(now);
                if ee <= 0 {
                    0
                } else {
                    let base = curve_amount(
                        self.curve_type,
                        self.total_amount as int,
                        ee,
                        (self.end_time - self.start_time) as int,
                    );
                    if self.milestones@.len() == 0 {
                        base
                    } else {
                        let cap = milestone_cap(self.milestones@, self.total_amount as int, t);
                        if base < cap {
                            base
                        } else {
                            cap
                        }
                    }
                }
            }
        }
    }

    /// USD unlocked at `now` for a pegged stream: the linear curve with
    /// pause accounting, run on the USD amount.
    pub open spec fn usd_unlocked(self, now: int) -> int {
        match self.usd_peg {
            Some(cfg) => {
                if now <= self.start_time {
                    0
                } else {
                    let t = self.effective_time(now);
                    if t >= self.adjusted_end() {
                        cfg.usd_amount as int
                    } else {
                        let ee = self.effective_elapsed(now);
                        if ee <= 0 {
                            0
                        } else {
                            cfg.usd_amount * ee / ((self.end_time - self.start_time) as int)
                        }
                    }
                }
            },
            None => 0,
        }
    }

    /// Unlocked amount at `now`, in token units.
    pub fn unlocked_amount(&self, now: u64) -> (r: i128)
        requires
            self.valid(),
        ensures
            r == self.unlocked(now as int),
    {
        if now <= self.start_time {
            return 0;
        }
        match self.cliff_time {
            Some(c) => {
                if now < c {
                    return 0;
                }
            },
            None => {},
        }
        let t: u64 = if self.is_paused {
            self.paused_time
        } else {
            now
        };
        let shifted_end: u64 = self.end_time + self.total_paused_duration;
        if t >= shifted_end {
            return self.total_amount;
        }
        let ee: i128 = (t as i128) - (self.start_time as i128) - (self.total_paused_duration
            as i128);
        if ee <= 0 {
            return 0;
        }
        let duration: i128 = (self.end_time - self.start_time) as i128;
        assert(ee < duration);
        let base: i128 = match self.curve_type {
            CurveType::Linear => {
                proof {
                    lemma_scaling_bounds(self.total_amount as int, ee as int, duration as int);
                }
                (self.total_amount * ee) / duration
            },
            CurveType::Exponential => {
                let fallback_linear: bool;
                let mut quadratic: i128 = 0;
                match ee.checked_mul(ee) {
                    Some(ee_sq) => {
                        match duration.checked_mul(duration) {
                            Some(dur_sq) => {
                                match self.total_amount.checked_mul(ee_sq) {
                                    Some(numerator) => {
                                        proof {
                                            assert(dur_sq > 0 && numerator >= 0)
                                                by (nonlinear_arith)
                                                requires
                                                    ee >= 0,
                                                    duration >= 1,
                                                    self.total_amount >= 0,
                                                    dur_sq == duration * duration,
                                                    numerator == self.total_amount * (ee * ee),
                                            ;
                                            lemma_exponential_value_bounds(
                                                self.total_amount as int,
                                                ee as int,
                                                duration as int,
                                            );
                                        }
                                        quadratic = numerator / dur_sq;
                                        fallback_linear = false;
                                    },
                                    None => {
                                        fallback_linear = true;
                                    },
                                }
                            },
                            None => {
                                fallback_linear = true;
                            },
                        }
                    },
                    None => {
                        fallback_linear = true;
                    },
                }
                if fallback_linear {
                    proof {
                        lemma_scaling_bounds(self.total_amount as int, ee as int, duration as int);
                    }
                    (self.total_amount * ee) / duration
                } else {
                    quadratic
                }
            },
        };
        if self.milestones.len() == 0 {
            return base;
        }
        let total = self.total_amount;
        let ghost ms = self.milestones@;
        let mut cap: i128 = 0;
        let mut i: usize = 0;
        while i < self.milestones.len()
            invariant
                self.valid(),
                ms == self.milestones@,
                total == self.total_amount,
                0 <= i <= ms.len(),
                cap == milestone_cap_upto(ms, total as int, t as int, i as int),
                0 <= cap <= total,
            decreases ms.len() - i,
        {
            let m = self.milestones[i];
            if m.timestamp <= t {
                proof {
                    lemma_scaling_bounds(total as int, m.percentage as int, 100);
                }
                let c = (total * (m.percentage as i128)) / 100;
                if c > cap {
                    cap = c;
                }
            }
            i = i + 1;
        }
        if base < cap {
            base
        } else {
            cap
        }
    }

    /// USD unlocked at `now` for a pegged stream; 0 for token-denominated
    /// streams.
    pub fn usd_unlocked_amount(&self, now: u64) -> (r: i128)
        requires
            self.valid(),
        ensures
            r == self.usd_unlocked(now as int),
    {
        let cfg = match self.usd_peg {
            Some(cfg) => cfg,
            None => {
                return 0;
            },
        };
        if now <= self.start_time {
            return 0;
        }
        let t: u64 = if self.is_paused {
            self.paused_time
        } else {
            now
        };
        let shifted_end: u64 = self.end_time + self.total_paused_duration;
        if t >= shifted_end {
            return cfg.usd_amount;
        }
        let ee: i128 = (t as i128) - (self.start_time as i128) - (self.total_paused_duration
            as i128);
        if ee <= 0 {
            return 0;
        }
        let duration: i128 = (self.end_time - self.start_time) as i128;
        assert(ee < duration);
        proof {
            lemma_scaling_bounds(cfg.usd_amount as int, ee as int, duration as int);
        }
        (cfg.usd_amount * ee) / duration
    }
}

/// The milestone cap over a prefix is bounded by the total whenever every
/// percentage is at most 100.
pub proof fn lemma_milestone_cap_upto_bounds(ms: Seq<Milestone>, total: int, t: int, n: int)
    requires
        total >= 0,
        n <= ms.len(),
        forall|i: int| 0 <= i < ms.len() ==> (#[trigger] ms[i]).percentage <= 100,
    ensures
        0 <= milestone_cap_upto(ms, total, t, n) <= total,
    decreases n,
{
    if n > 0 {
        lemma_milestone_cap_upto_bounds(ms, total, t, n - 1);
        if ms[n - 1].timestamp <= t {
            lemma_scaling_bounds(total, ms[n - 1].percentage as int, 100);
        }
    }
}

/// The milestone cap never decreases as effective time advances.
pub proof fn lemma_milestone_cap_upto_monotonic(ms: Seq<Milestone>, total: int, t1: int, t2: int, n: int)
    requires
        total >= 0,
        t1 <= t2,
        n <= ms.len(),
    ensures
        milestone_cap_upto(ms, total, t1, n) <= milestone_cap_upto(ms, total, t2, n),
    decreases n,
{
    if n > 0 {
        lemma_milestone_cap_upto_monotonic(ms, total, t1, t2, n - 1);
    }
}

/// The configured curve is bounded by `[0, total]` on any effective elapsed
/// time within the duration.
pub proof fn lemma_curve_amount_bounds(curve: CurveType, total: int, elapsed: int, duration: int)
    requires
        total >= 0,
        0 <= elapsed <= duration,
        0 < duration,
    ensures
        0 <= curve_amount(curve, total, elapsed, duration) <= total,
{
    lemma_linear_unlocked_bounds(total, 0, duration, elapsed);
    if elapsed == duration {
        assert(linear_unlocked(total, 0, duration, elapsed) == total);
        vstd::arithmetic::div_mod::lemma_div_by_multiple(total, duration);
        assert(total * duration / duration == total);
    } else {
        assert(linear_unlocked(total, 0, duration, elapsed) == total * elapsed / duration);
    }
    match curve {
        CurveType::Linear => {},
        CurveType::Exponential => {
            if !exponential_overflows(total, elapsed, duration) {
                lemma_exponential_value_bounds(total, elapsed, duration);
            }
        },
    }
}

/// The configured curve never decreases as effective elapsed time grows,
/// also across the quadratic curve's overflow fallback to the linear value.
pub proof fn lemma_curve_amount_monotonic(
    curve: CurveType,
    total: int,
    e1: int,
    e2: int,
    duration: int,
)
    requires
        total >= 0,
        0 <= e1 <= e2 <= duration,
        0 < duration,
    ensures
        curve_amount(curve, total, e1, duration) <= curve_amount(curve, total, e2, duration),
{
    lemma_linear_monotone_piece(total, e1, e2, duration);
    match curve {
        CurveType::Linear => {},
        CurveType::Exponential => {
            if exponential_overflows(total, e1, duration) {
                lemma_exponential_overflow_monotonic(total, e1, e2, duration);
            } else {
                if exponential_overflows(total, e2, duration) {
                    lemma_exponential_below_linear(total, e1, duration);
                } else {
                    lemma_exponential_value_monotonic(total, e1, e2, duration);
                }
            }
        },
    }
}

/// The linear mid-stream value is monotone in elapsed time.
proof fn lemma_linear_monotone_piece(total: int, e1: int, e2: int, duration: int)
    requires
        total >= 0,
        0 <= e1 <= e2 <= duration,
        0 < duration,
    ensures
        total * e1 / duration <= total * e2 / duration,
{
    lemma_linear_unlocked_monotonic(total, 0, duration, e1, e2);
    if e2 == duration {
        lemma_linear_unlocked_bounds(total, 0, duration, e1);
        vstd::arithmetic::div_mod::lemma_div_by_multiple(total, duration);
        assert(total * duration / duration == total);
    }
}

/// Boundedness of the stream-level unlock: for a well-formed stream the
/// unlocked amount always lies in `[0, total_amount]`.
pub proof fn lemma_stream_unlocked_bounds(s: Stream, now: int)
    requires
        s.valid(),
    ensures
        0 <= s.unlocked(now) <= s.total_amount,
{
    let t = s.effective_time(now);
    if now > s.start_time && !(match s.cliff_time {
        Some(c) => now < c,
        None => false,
    }) && t < s.adjusted_end() {
        let ee = s.effective_elapsed(now);
        if ee > 0 {
            let duration = (s.end_time - s.start_time) as int;
            lemma_curve_amount_bounds(s.curve_type, s.total_amount as int, ee, duration);
            if s.milestones@.len() > 0 {
                lemma_milestone_cap_upto_bounds(
                    s.milestones@,
                    s.total_amount as int,
                    t,
                    s.milestones@.len() as int,
                );
            }
        }
    }
}

/// Monotonicity of the stream-level unlock: on a fixed well-formed record,
/// a later read never sees a smaller unlocked amount.
pub proof fn lemma_stream_unlocked_monotonic(s: Stream, t1: int, t2: int)
    requires
        s.valid(),
        t1 <= t2,
    ensures
        s.unlocked(t1) <= s.unlocked(t2),
{
    lemma_stream_unlocked_bounds(s, t1);
    lemma_stream_unlocked_bounds(s, t2);
    if s.unlocked(t1) > 0 {
        let e1 = s.effective_time(t1);
        let e2 = s.effective_time(t2);
        assert(e1 <= e2);
        if e1 < s.adjusted_end() && e2 < s.adjusted_end() {
            let ee1 = s.effective_elapsed(t1);
            let ee2 = s.effective_elapsed(t2);
            let duration = (s.end_time - s.start_time) as int;
            assert(0 < ee1 <= ee2 < duration);
            lemma_curve_amount_monotonic(s.curve_type, s.total_amount as int, ee1, ee2, duration);
            if s.milestones@.len() > 0 {
                lemma_milestone_cap_upto_monotonic(
                    s.milestones@,
                    s.total_amount as int,
                    e1,
                    e2,
                    s.milestones@.len() as int,
                );
            }
        }
    }
}

/// Terminal exactness of the stream-level unlock: once `now` reaches the
/// pause-shifted end of an unpaused stream, the unlocked amount is the
/// literal total, never a recomputed fraction.
pub proof fn lemma_stream_unlocked_terminal(s: Stream, now: int)
    requires
        s.valid(),
        !s.is_paused,
        now >= s.end_time + s.total_paused_duration,
    ensures
        s.unlocked(now) == s.total_amount,
{
}

/// Nothing unlocks before the start or before the cliff.
pub proof fn lemma_stream_unlocked_before_start(s: Stream, now: int)
    requires
        s.valid(),
        now <= s.start_time || (match s.cliff_time {
            Some(c) => now < c,
            None => false,
        }),
    ensures
        s.unlocked(now) == 0,
{
}

/// Boundedness of the USD-space unlock: for a well-formed pegged stream
/// the unlocked USD value always lies in `[0, usd_amount]`.
pub proof fn lemma_usd_unlocked_bounds(s: Stream, now: int)
    requires
        s.valid(),
    ensures
        (match s.usd_peg {
            Some(cfg) => 0 <= s.usd_unlocked(now) <= cfg.usd_amount,
            None => s.usd_unlocked(now) == 0,
        }),
{
    match s.usd_peg {
        Some(cfg) => {
            let t = s.effective_time(now);
            if now > s.start_time && t < s.adjusted_end() {
                let ee = s.effective_elapsed(now);
                if ee > 0 {
                    lemma_scaling_bounds(
                        cfg.usd_amount as int,
                        ee,
                        (s.end_time - s.start_time) as int,
                    );
                }
            }
        },
        None => {},
    }
}

/// Monotonicity of the USD-space unlock: on a fixed well-formed pegged
/// record, a later read never sees a smaller unlocked USD value.
pub proof fn lemma_usd_unlocked_monotonic(s: Stream, t1: int, t2: int)
    requires
        s.valid(),
        t1 <= t2,
    ensures
        s.usd_unlocked(t1) <= s.usd_unlocked(t2),
{
    lemma_usd_unlocked_bounds(s, t1);
    lemma_usd_unlocked_bounds(s, t2);
    match s.usd_peg {
        Some(cfg) => {
            if s.usd_unlocked(t1) > 0 {
                let e1 = s.effective_time(t1);
                let e2 = s.effective_time(t2);
                if e1 < s.adjusted_end() && e2 < s.adjusted_end() {
                    let ee1 = s.effective_elapsed(t1);
                    let ee2 = s.effective_elapsed(t2);
                    let duration = (s.end_time - s.start_time) as int;
                    lemma_linear_monotone_piece(cfg.usd_amount as int, ee1, ee2, duration);
                }
            }
        },
        None => {},
    }
}

/// The withdrawn amount keeps pace with the curve: a stream settled up to
/// `t1` (withdrawn exactly what was unlocked then) never shows a negative
/// withdrawable balance at any later `t2`.
pub proof fn lemma_withdrawn_within_unlocked(s: Stream, t1: int, t2: int)
    requires
        s.valid(),
        s.withdrawn_amount == s.unlocked(t1),
        t1 <= t2,
    ensures
        0 <= s.withdrawn_amount <= s.unlocked(t2) <= s.total_amount,
{
    lemma_stream_unlocked_bounds(s, t1);
    lemma_stream_unlocked_bounds(s, t2);
    lemma_stream_unlocked_monotonic(s, t1, t2);
}

/// Pause non-accrual: while a stream is paused, the unlocked amount does
/// not change with time (read anywhere past the start and cliff).
pub proof fn lemma_paused_unlocked_constant(s: Stream, t1: int, t2: int)
    requires
        s.valid(),
        s.is_paused,
        s.start_time < t1,
        s.start_time < t2,
        (match s.cliff_time {
            Some(c) => c <= t1 && c <= t2,
            None => true,
        }),
    ensures
        s.unlocked(t1) == s.unlocked(t2),
{
}

/// Unpause continuity for milestone-free streams: the moment a stream is
/// resumed it unlocks exactly what it showed while paused — it resumes
/// where it stopped.
pub proof fn lemma_unpause_resumes(s: Stream, resumed: Stream, now: int)
    requires
        s.valid(),
        s.is_paused,
        now >= s.paused_time,
        s.start_time < now,
        (match s.cliff_time {
            Some(c) => c <= now,
            None => true,
        }),
        s.total_paused_duration + (now - s.paused_time) <= u64::MAX,
        s.milestones@.len() == 0,
        resumed == (Stream {
            is_paused: false,
            paused_time: 0,
            total_paused_duration: (s.total_paused_duration + (now - s.paused_time)) as u64,
            ..s
        }),
        resumed.end_time + resumed.total_paused_duration <= u64::MAX,
    ensures
        resumed.unlocked(now) == s.unlocked(now),
{
    assert(resumed.effective_elapsed(now) == s.effective_elapsed(now));
}

} // verus!
