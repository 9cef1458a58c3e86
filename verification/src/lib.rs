//! A token-streaming (continuous vesting) settlement engine.
//!
//! A sender deposits a fixed amount that a receiver withdraws progressively
//! over time, under a configurable unlock curve, with cliffs, percentage
//! milestones, pausing, mid-stream top-ups, two-sided cancellation,
//! arbiter-mediated dispute freezing, compliance clawback, yield-vault share
//! bookkeeping, and USD-value-pegged payouts via a price oracle.
//!
//! The crate holds the unlock/settlement arithmetic and the stream lifecycle
//! state machine as verified functions over plain values. The host-side
//! collaborators (authorization, persistent storage, token transfer, vault
//! and oracle invocation, event emission) stay outside: callers hand the
//! library the values those collaborators produced and perform the transfers
//! the library's results call for.

pub mod interest;
pub mod lifecycle;
pub mod math;
pub mod oracle;
pub mod settle;
pub mod store;
pub mod types;
pub mod unlock;
pub mod voting;
