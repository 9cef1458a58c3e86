//! Voting views over a stream: the withdrawable (unlocked, unwithdrawn)
//! balance counts as voting power, and the whole remaining deposit as total
//! balance. A cancelled stream carries no weight.
//!
//! Voting power reads the plain linear schedule without pause shifting:
//! it is a governance snapshot, not a settlement amount.

use vstd::prelude::*;

verus! {

use crate::math::{calculate_unlocked_amount, lemma_linear_unlocked_bounds, linear_unlocked};
use crate::types::Stream;

/// Voting power of a stream at `now`: the linearly unlocked amount net of
/// withdrawals, or 0 once cancelled.
pub open spec fn voting_power(s: Stream, now: int) -> int {
    if s.cancelled {
        0
    } else {
        linear_unlocked(s.total_amount as int, s.start_time as int, s.end_time as int, now)
            - s.withdrawn_amount
    }
}

/// Voting power usable at `now`: the unlocked balance not yet withdrawn,
/// 0 for a cancelled stream.
pub fn get_voting_power(stream: &Stream, now: u64) -> (r: i128)
    requires
        stream.valid(),
    ensures
        r == voting_power(*stream, now as int),
{
    if stream.cancelled {
        return 0;
    }
    proof {
        lemma_linear_unlocked_bounds(
            stream.total_amount as int,
            stream.start_time as int,
            stream.end_time as int,
            now as int,
        );
    }
    let unlocked = calculate_unlocked_amount(
        stream.total_amount,
        stream.start_time,
        stream.end_time,
        now,
    );
    unlocked - stream.withdrawn_amount
}

/// Whole balance still sitting in the stream (locked plus unlocked), 0 once
/// cancelled.
pub fn get_total_balance(stream: &Stream) -> (r: i128)
    requires
        stream.valid(),
    ensures
        r == if stream.cancelled {
            0int
        } else {
            stream.total_amount - stream.withdrawn_amount
        },
{
    if stream.cancelled {
        return 0;
    }
    stream.total_amount - stream.withdrawn_amount
}

} // verus!
