//! Settlement transitions on a stream record: withdraw, cancel, top-up,
//! pause/unpause, receiver and receipt transfer, dispute freezing and
//! resolution, and compliance clawback.
//!
//! Each transition checks every guard before touching the record, so a
//! rejected operation leaves it exactly as it was; each returns the external
//! transfers the host must perform in the same atomic step. Terminal
//! transitions are idempotent-safe: repeating one on a cancelled stream
//! fails with `AlreadyCancelled` and never pays again.
//!
//! Each transition's exact outcome is captured by a `..._decided` predicate
//! relating the record before (`s`) and after (`s2`) to the result; the
//! record store restates the same predicates for its keyed entry points.

use vstd::prelude::*;

verus! {

use crate::math::lemma_le_div_iff_mul_le;
use crate::oracle::{calculate_token_amount, quote_acceptable, usd_to_tokens, validate_quote};
use crate::types::{CancelSettlement, Error, PriceQuote, Stream, WithdrawOutcome};
use crate::unlock::{lemma_stream_unlocked_bounds, lemma_usd_unlocked_bounds};
use vstd::arithmetic::div_mod::{
    lemma_div_nonincreasing,
    lemma_div_pos_is_pos,
    lemma_multiply_divide_le,
};
use vstd::arithmetic::mul::lemma_mul_inequality;

/// Vault shares released by withdrawing `amount` from stream `s`: the
/// single rounding path `floor(shares * amount / total)`, never recomputed
/// independently. Zero for unvaulted streams.
pub open spec fn shares_released(s: Stream, amount: int) -> int {
    if s.vault_address is Some && s.vault_shares > 0 {
        s.vault_shares * amount / (s.total_amount as int)
    } else {
        0
    }
}

/// Number of seconds a top-up of `amount` extends the stream: the original
/// flow rate `floor(total / duration)` is preserved, never recomputed, so a
/// top-up extends the tail without changing the slope. When the flow rate
/// floors to zero the top-up is accepted with no schedule extension; that
/// asymmetry is part of the design and is not resolved here.
pub open spec fn top_up_extension(s: Stream, amount: int) -> int {
    let flow_rate = (s.total_amount as int) / ((s.end_time - s.start_time) as int);
    if flow_rate > 0 {
        amount / flow_rate
    } else {
        0
    }
}

/// Exact outcome of `withdraw` on record `s`: either the first failing
/// guard's error with `s2 == s`, or the success case, where the withdrawn
/// amount becomes exactly what the curve has unlocked.
pub open spec fn withdraw_decided(
    s: Stream,
    s2: Stream,
    caller: u64,
    now: int,
    quote: Option<PriceQuote>,
    r: Result<WithdrawOutcome, Error>,
) -> bool {
    if caller != s.receipt_owner {
        r == Err::<WithdrawOutcome, Error>(Error::NotReceiptOwner) && s2 == s
    } else if s.cancelled {
        r == Err::<WithdrawOutcome, Error>(Error::AlreadyCancelled) && s2 == s
    } else if s.is_paused {
        r == Err::<WithdrawOutcome, Error>(Error::StreamPaused) && s2 == s
    } else if s.is_frozen {
        r == Err::<WithdrawOutcome, Error>(Error::StreamFrozen) && s2 == s
    } else {
        match s.usd_peg {
            Some(cfg) => match quote {
                None => r == Err::<WithdrawOutcome, Error>(Error::OracleStalePrice) && s2 == s,
                Some(q) => {
                    if !quote_acceptable(q, now, cfg.oracle.max_staleness as int) {
                        r == Err::<WithdrawOutcome, Error>(Error::OracleStalePrice) && s2 == s
                    } else if q.price < cfg.min_price || q.price > cfg.max_price {
                        r == Err::<WithdrawOutcome, Error>(Error::PriceOutOfBounds) && s2 == s
                    } else {
                        let entitled = usd_to_tokens(s.usd_unlocked(now), q.price as int);
                        let due = entitled - s.withdrawn_amount;
                        if due <= 0 {
                            r == Err::<WithdrawOutcome, Error>(Error::InsufficientBalance) && s2
                                == s
                        } else {
                            r == Ok::<WithdrawOutcome, Error>(
                                WithdrawOutcome { amount: due as i128, shares_redeemed: 0 },
                            ) && s2 == (Stream { withdrawn_amount: entitled as i128, ..s })
                        }
                    }
                },
            },
            None => {
                let due = s.unlocked(now) - s.withdrawn_amount;
                if due <= 0 {
                    r == Err::<WithdrawOutcome, Error>(Error::InsufficientBalance) && s2 == s
                } else {
                    let rel = shares_released(s, due);
                    r == Ok::<WithdrawOutcome, Error>(
                        WithdrawOutcome { amount: due as i128, shares_redeemed: rel as i128 },
                    ) && s2 == (Stream {
                        withdrawn_amount: s.unlocked(now) as i128,
                        vault_shares: (s.vault_shares - rel) as i128,
                        ..s
                    })
                }
            },
        }
    }
}

/// Exact outcome of `cancel` on record `s`.
pub open spec fn cancel_decided(
    s: Stream,
    s2: Stream,
    caller: u64,
    now: int,
    r: Result<CancelSettlement, Error>,
) -> bool {
    if caller != s.sender && caller != s.receipt_owner {
        r == Err::<CancelSettlement, Error>(Error::Unauthorized) && s2 == s
    } else if s.cancelled {
        r == Err::<CancelSettlement, Error>(Error::AlreadyCancelled) && s2 == s
    } else {
        let entitled = s.unlocked(now);
        r == Ok::<CancelSettlement, Error>(
            CancelSettlement {
                to_receiver: (entitled - s.withdrawn_amount) as i128,
                to_sender: (s.total_amount - entitled) as i128,
                shares_redeemed: s.vault_shares,
            },
        ) && s2 == (Stream {
            cancelled: true,
            withdrawn_amount: entitled as i128,
            vault_shares: 0,
            ..s
        })
    }
}

/// Exact outcome of `top_up` on record `s`.
pub open spec fn top_up_decided(
    s: Stream,
    s2: Stream,
    caller: u64,
    amount: int,
    now: int,
    r: Result<(), Error>,
) -> bool {
    let extension = top_up_extension(s, amount);
    let new_total = s.total_amount + amount;
    let new_end = s.end_time + extension;
    if amount <= 0 {
        r == Err::<(), Error>(Error::InvalidAmount) && s2 == s
    } else if caller != s.sender {
        r == Err::<(), Error>(Error::Unauthorized) && s2 == s
    } else if s.cancelled {
        r == Err::<(), Error>(Error::AlreadyCancelled) && s2 == s
    } else if now >= s.end_time {
        r == Err::<(), Error>(Error::StreamEnded) && s2 == s
    } else if s.usd_peg is Some {
        r == Err::<(), Error>(Error::InvalidAmount) && s2 == s
    } else if new_total > i128::MAX {
        r == Err::<(), Error>(Error::InvalidAmount) && s2 == s
    } else if new_end + s.total_paused_duration > u64::MAX {
        r == Err::<(), Error>(Error::InvalidTimeRange) && s2 == s
    } else if new_total * 10000 > i128::MAX || new_total * (new_end - s.start_time) > i128::MAX || (
    s.vault_shares > 0 && s.vault_shares * new_total > i128::MAX) {
        r == Err::<(), Error>(Error::InvalidAmount) && s2 == s
    } else {
        r == Ok::<(), Error>(()) && s2 == (Stream {
            total_amount: new_total as i128,
            end_time: new_end as u64,
            ..s
        })
    }
}

/// Exact outcome of `pause` on record `s`; pausing a paused stream is a
/// no-op success.
pub open spec fn pause_decided(s: Stream, s2: Stream, caller: u64, now: u64, r: Result<
    (),
    Error,
>) -> bool {
    if caller != s.sender {
        r == Err::<(), Error>(Error::Unauthorized) && s2 == s
    } else if s.cancelled {
        r == Err::<(), Error>(Error::AlreadyCancelled) && s2 == s
    } else if s.is_paused {
        r == Ok::<(), Error>(()) && s2 == s
    } else {
        r == Ok::<(), Error>(()) && s2 == (Stream { is_paused: true, paused_time: now, ..s })
    }
}

/// Exact outcome of `unpause` on record `s`; unpausing a running stream is
/// a no-op success.
pub open spec fn unpause_decided(s: Stream, s2: Stream, caller: u64, now: u64, r: Result<
    (),
    Error,
>) -> bool {
    if caller != s.sender {
        r == Err::<(), Error>(Error::Unauthorized) && s2 == s
    } else if s.cancelled {
        r == Err::<(), Error>(Error::AlreadyCancelled) && s2 == s
    } else if !s.is_paused {
        r == Ok::<(), Error>(()) && s2 == s
    } else {
        r == Ok::<(), Error>(()) && s2 == (Stream {
            is_paused: false,
            paused_time: 0,
            total_paused_duration: (s.total_paused_duration + (now - s.paused_time)) as u64,
            ..s
        })
    }
}

/// Exact outcome of `transfer_receiver` on record `s`: a soulbound stream
/// rejects before any other check, whoever calls.
pub open spec fn transfer_receiver_decided(
    s: Stream,
    s2: Stream,
    caller: u64,
    new_receiver: u64,
    r: Result<(), Error>,
) -> bool {
    if s.is_soulbound {
        r == Err::<(), Error>(Error::StreamIsSoulbound) && s2 == s
    } else if caller != s.sender {
        r == Err::<(), Error>(Error::Unauthorized) && s2 == s
    } else if s.cancelled {
        r == Err::<(), Error>(Error::AlreadyCancelled) && s2 == s
    } else {
        r == Ok::<(), Error>(()) && s2 == (Stream { receiver: new_receiver, ..s })
    }
}

/// Exact outcome of `transfer_receipt` on record `s`.
pub open spec fn transfer_receipt_decided(s: Stream, s2: Stream, from: u64, to: u64, r: Result<
    (),
    Error,
>) -> bool {
    if from != s.receipt_owner {
        r == Err::<(), Error>(Error::NotReceiptOwner) && s2 == s
    } else {
        r == Ok::<(), Error>(()) && s2 == (Stream { receipt_owner: to, ..s })
    }
}

/// Exact outcome of `set_arbiter` on record `s`.
pub open spec fn set_arbiter_decided(s: Stream, s2: Stream, caller: u64, arbiter: u64, r: Result<
    (),
    Error,
>) -> bool {
    if caller != s.sender {
        r == Err::<(), Error>(Error::Unauthorized) && s2 == s
    } else if s.cancelled {
        r == Err::<(), Error>(Error::AlreadyCancelled) && s2 == s
    } else {
        r == Ok::<(), Error>(()) && s2 == (Stream { arbiter: Some(arbiter), ..s })
    }
}

/// Exact outcome of `freeze` on record `s`: exclusively the appointed
/// arbiter may freeze.
pub open spec fn freeze_decided(s: Stream, s2: Stream, caller: u64, r: Result<(), Error>) -> bool {
    if s.arbiter != Some(caller) {
        r == Err::<(), Error>(Error::Unauthorized) && s2 == s
    } else if s.cancelled {
        r == Err::<(), Error>(Error::AlreadyCancelled) && s2 == s
    } else {
        r == Ok::<(), Error>(()) && s2 == (Stream { is_frozen: true, ..s })
    }
}

/// Exact outcome of `resolve_dispute` on record `s`: the remaining balance
/// splits by basis points, overriding curve-based settlement.
pub open spec fn resolve_dispute_decided(
    s: Stream,
    s2: Stream,
    caller: u64,
    receiver_bps: u32,
    r: Result<CancelSettlement, Error>,
) -> bool {
    let remaining = s.total_amount - s.withdrawn_amount;
    let to_receiver = if remaining > 0 {
        remaining * receiver_bps / 10000
    } else {
        0
    };
    if s.arbiter != Some(caller) {
        r == Err::<CancelSettlement, Error>(Error::Unauthorized) && s2 == s
    } else if s.cancelled {
        r == Err::<CancelSettlement, Error>(Error::AlreadyCancelled) && s2 == s
    } else if receiver_bps > 10000 {
        r == Err::<CancelSettlement, Error>(Error::InvalidAmount) && s2 == s
    } else {
        r == Ok::<CancelSettlement, Error>(
            CancelSettlement {
                to_receiver: to_receiver as i128,
                to_sender: (remaining - to_receiver) as i128,
                shares_redeemed: s.vault_shares,
            },
        ) && s2 == (Stream {
            cancelled: true,
            is_frozen: false,
            withdrawn_amount: s.total_amount,
            vault_shares: 0,
            ..s
        })
    }
}

/// Exact outcome of `governance_clawback` on record `s`: the whole
/// unwithdrawn remainder leaves toward the issuer, not the sender.
pub open spec fn clawback_decided(
    s: Stream,
    s2: Stream,
    officer_is_compliance: bool,
    r: Result<WithdrawOutcome, Error>,
) -> bool {
    if !officer_is_compliance {
        r == Err::<WithdrawOutcome, Error>(Error::Unauthorized) && s2 == s
    } else if s.cancelled {
        r == Err::<WithdrawOutcome, Error>(Error::AlreadyCancelled) && s2 == s
    } else {
        r == Ok::<WithdrawOutcome, Error>(
            WithdrawOutcome {
                amount: (s.total_amount - s.withdrawn_amount) as i128,
                shares_redeemed: s.vault_shares,
            },
        ) && s2 == (Stream {
            cancelled: true,
            withdrawn_amount: s.total_amount,
            vault_shares: 0,
            ..s
        })
    }
}

impl Stream {
    /// Withdraw everything currently due to the receipt owner. For a
    /// USD-pegged stream the curve runs in USD space and `quote` must be a
    /// fresh, in-bounds price; token-denominated streams ignore `quote`.
    /// On success the withdrawn amount becomes exactly the unlocked amount,
    /// and the outcome tells the host what to transfer and which vault
    /// shares to redeem in the same atomic step.
    pub fn withdraw(&mut self, caller: u64, now: u64, quote: Option<PriceQuote>) -> (r: Result<
        WithdrawOutcome,
        Error,
    >)
        requires
            old(self).valid(),
        ensures
            final(self).valid(),
            final(self).is_soulbound == old(self).is_soulbound,
            final(self).cancelled == old(self).cancelled,
            r is Ok ==> r->Ok_0.amount > 0,
            withdraw_decided(*old(self), *final(self), caller, now as int, quote, r),
    {
        if caller != self.receipt_owner {
            return Err(Error::NotReceiptOwner);
        }
        if self.cancelled {
            return Err(Error::AlreadyCancelled);
        }
        if self.is_paused {
            return Err(Error::StreamPaused);
        }
        if self.is_frozen {
            return Err(Error::StreamFrozen);
        }
        match self.usd_peg {
            Some(cfg) => {
                let q = match quote {
                    Some(q) => q,
                    None => {
                        return Err(Error::OracleStalePrice);
                    },
                };
                if !validate_quote(q, now, cfg.oracle.max_staleness) {
                    return Err(Error::OracleStalePrice);
                }
                if q.price < cfg.min_price || q.price > cfg.max_price {
                    return Err(Error::PriceOutOfBounds);
                }
                let unlocked_usd = self.usd_unlocked_amount(now);
                proof {
                    lemma_usd_unlocked_bounds(*self, now as int);
                    lemma_mul_inequality(unlocked_usd as int, cfg.usd_amount as int, 10000000);
                    crate::oracle::lemma_usd_to_tokens_bounds(unlocked_usd as int, q.price as int);
                }
                let entitled = match calculate_token_amount(unlocked_usd, q.price) {
                    Ok(v) => v,
                    Err(_) => {
                        return Err(Error::InvalidAmount);
                    },
                };
                let due = entitled - self.withdrawn_amount;
                if due <= 0 {
                    return Err(Error::InsufficientBalance);
                }
                self.withdrawn_amount = entitled;
                Ok(WithdrawOutcome { amount: due, shares_redeemed: 0 })
            },
            None => {
                let entitled = self.unlocked_amount(now);
                proof {
                    lemma_stream_unlocked_bounds(*self, now as int);
                }
                let due = entitled - self.withdrawn_amount;
                if due <= 0 {
                    return Err(Error::InsufficientBalance);
                }
                let rel: i128 = match self.vault_address {
                    Some(_) => {
                        if self.vault_shares > 0 {
                            proof {
                                crate::math::lemma_mul_window(
                                    self.vault_shares as int,
                                    due as int,
                                    self.total_amount as int,
                                );
                                lemma_div_pos_is_pos(
                                    self.vault_shares * due,
                                    self.total_amount as int,
                                );
                                lemma_multiply_divide_le(
                                    self.vault_shares * due,
                                    self.total_amount as int,
                                    self.vault_shares as int,
                                );
                            }
                            (self.vault_shares * due) / self.total_amount
                        } else {
                            0
                        }
                    },
                    None => 0,
                };
                proof {
                    lemma_mul_inequality(
                        self.vault_shares - rel,
                        self.vault_shares as int,
                        self.total_amount as int,
                    );
                }
                self.withdrawn_amount = entitled;
                self.vault_shares = self.vault_shares - rel;
                Ok(WithdrawOutcome { amount: due, shares_redeemed: rel })
            },
        }
    }

    /// Cancel the stream: the receiver's side keeps what the curve has
    /// unlocked, the sender takes back the rest, computed from one unlocked
    /// value so the split reconciles exactly. Only the sender or the
    /// current receipt owner may cancel; a second cancel fails with
    /// `AlreadyCancelled` and changes nothing.
    pub fn cancel(&mut self, caller: u64, now: u64) -> (r: Result<CancelSettlement, Error>)
        requires
            old(self).valid(),
        ensures
            final(self).valid(),
            final(self).is_soulbound == old(self).is_soulbound,
            r is Ok ==> r->Ok_0.to_receiver + r->Ok_0.to_sender == old(self).total_amount - old(
                self,
            ).withdrawn_amount,
            cancel_decided(*old(self), *final(self), caller, now as int, r),
    {
        if caller != self.sender && caller != self.receipt_owner {
            return Err(Error::Unauthorized);
        }
        if self.cancelled {
            return Err(Error::AlreadyCancelled);
        }
        let entitled = self.unlocked_amount(now);
        proof {
            lemma_stream_unlocked_bounds(*self, now as int);
        }
        let to_receiver = entitled - self.withdrawn_amount;
        let to_sender = self.total_amount - entitled;
        let shares = self.vault_shares;
        self.cancelled = true;
        self.withdrawn_amount = entitled;
        self.vault_shares = 0;
        Ok(CancelSettlement { to_receiver, to_sender, shares_redeemed: shares })
    }

    /// Extend the stream with extra funds at the original flow rate: the
    /// end time moves out by `floor(extra / flow_rate)` seconds while the
    /// slope is untouched. Only the sender may top up, only before the end,
    /// and never on a cancelled or USD-pegged stream; amounts whose
    /// settlement products would leave `i128`, or whose extension would
    /// leave `u64`, are rejected before any change.
    pub fn top_up(&mut self, caller: u64, amount: i128, now: u64) -> (r: Result<(), Error>)
        requires
            old(self).valid(),
        ensures
            final(self).valid(),
            final(self).is_soulbound == old(self).is_soulbound,
            final(self).cancelled == old(self).cancelled,
            top_up_decided(*old(self), *final(self), caller, amount as int, now as int, r),
    {
        if amount <= 0 {
            return Err(Error::InvalidAmount);
        }
        if caller != self.sender {
            return Err(Error::Unauthorized);
        }
        if self.cancelled {
            return Err(Error::AlreadyCancelled);
        }
        if now >= self.end_time {
            return Err(Error::StreamEnded);
        }
        match self.usd_peg {
            Some(_) => {
                return Err(Error::InvalidAmount);
            },
            None => {},
        }
        if amount > i128::MAX - self.total_amount {
            return Err(Error::InvalidAmount);
        }
        let new_total = self.total_amount + amount;
        let duration = (self.end_time - self.start_time) as i128;
        let flow_rate = self.total_amount / duration;
        proof {
            lemma_div_pos_is_pos(self.total_amount as int, duration as int);
        }
        let extension: i128 = if flow_rate > 0 {
            proof {
                lemma_div_pos_is_pos(amount as int, flow_rate as int);
                lemma_div_nonincreasing(amount as int, flow_rate as int);
            }
            amount / flow_rate
        } else {
            0
        };
        let headroom: u64 = u64::MAX - self.end_time - self.total_paused_duration;
        if extension > headroom as i128 {
            return Err(Error::InvalidTimeRange);
        }
        let new_end: u64 = self.end_time + (extension as u64);
        proof {
            lemma_le_div_iff_mul_le(new_total as int, i128::MAX as int, 10000);
        }
        if new_total > i128::MAX / 10000 {
            return Err(Error::InvalidAmount);
        }
        let new_duration = (new_end - self.start_time) as i128;
        proof {
            lemma_le_div_iff_mul_le(new_total as int, i128::MAX as int, new_duration as int);
        }
        if new_total > i128::MAX / new_duration {
            return Err(Error::InvalidAmount);
        }
        if self.vault_shares > 0 {
            proof {
                lemma_le_div_iff_mul_le(
                    self.vault_shares as int,
                    i128::MAX as int,
                    new_total as int,
                );
            }
            if self.vault_shares > i128::MAX / new_total {
                return Err(Error::InvalidAmount);
            }
        }
        self.total_amount = new_total;
        self.end_time = new_end;
        proof {
            if self.vault_shares == 0 {
                assert(self.vault_shares * self.total_amount == 0) by (nonlinear_arith)
                    requires
                        self.vault_shares == 0,
                ;
            }
        }
        Ok(())
    }

    /// Suspend unlocking. Only the sender may pause; pausing an already
    /// paused stream is a no-op success.
    pub fn pause(&mut self, caller: u64, now: u64) -> (r: Result<(), Error>)
        requires
            old(self).valid(),
        ensures
            final(self).valid(),
            final(self).is_soulbound == old(self).is_soulbound,
            pause_decided(*old(self), *final(self), caller, now, r),
    {
        if caller != self.sender {
            return Err(Error::Unauthorized);
        }
        if self.cancelled {
            return Err(Error::AlreadyCancelled);
        }
        if self.is_paused {
            return Ok(());
        }
        self.is_paused = true;
        self.paused_time = now;
        Ok(())
    }

    /// Resume unlocking, adding the pause's length to the total paused
    /// duration so the schedule continues where it stopped. Only the sender
    /// may unpause; unpausing a running stream is a no-op success.
    pub fn unpause(&mut self, caller: u64, now: u64) -> (r: Result<(), Error>)
        requires
            old(self).valid(),
            (caller == old(self).sender && !old(self).cancelled && old(self).is_paused) ==> now
                >= old(self).paused_time && old(self).end_time + old(self).total_paused_duration + (
            now - old(self).paused_time) <= u64::MAX,
        ensures
            final(self).valid(),
            final(self).is_soulbound == old(self).is_soulbound,
            unpause_decided(*old(self), *final(self), caller, now, r),
    {
        if caller != self.sender {
            return Err(Error::Unauthorized);
        }
        if self.cancelled {
            return Err(Error::AlreadyCancelled);
        }
        if !self.is_paused {
            return Ok(());
        }
        let pause_duration = now - self.paused_time;
        self.total_paused_duration = self.total_paused_duration + pause_duration;
        self.is_paused = false;
        self.paused_time = 0;
        Ok(())
    }

    /// Reassign the vesting beneficiary. Rejected unconditionally, before
    /// any other check, when the stream is soulbound: that flag is a
    /// protocol invariant no caller can waive. Otherwise only the sender
    /// may reassign, and only while the stream is live.
    pub fn transfer_receiver(&mut self, caller: u64, new_receiver: u64) -> (r: Result<(), Error>)
        requires
            old(self).valid(),
        ensures
            final(self).valid(),
            final(self).is_soulbound == old(self).is_soulbound,
            old(self).is_soulbound ==> r == Err::<(), Error>(Error::StreamIsSoulbound),
            transfer_receiver_decided(*old(self), *final(self), caller, new_receiver, r),
    {
        if self.is_soulbound {
            return Err(Error::StreamIsSoulbound);
        }
        if caller != self.sender {
            return Err(Error::Unauthorized);
        }
        if self.cancelled {
            return Err(Error::AlreadyCancelled);
        }
        self.receiver = new_receiver;
        Ok(())
    }

    /// Hand the receipt (the withdrawal claim) to a new owner. Only the
    /// current receipt owner may transfer it.
    pub fn transfer_receipt(&mut self, from: u64, to: u64) -> (r: Result<(), Error>)
        requires
            old(self).valid(),
        ensures
            final(self).valid(),
            final(self).is_soulbound == old(self).is_soulbound,
            transfer_receipt_decided(*old(self), *final(self), from, to, r),
    {
        if from != self.receipt_owner {
            return Err(Error::NotReceiptOwner);
        }
        self.receipt_owner = to;
        Ok(())
    }

    /// Appoint the arbiter entitled to freeze the stream and resolve
    /// disputes. Only the sender may appoint, and only while live.
    pub fn set_arbiter(&mut self, caller: u64, arbiter: u64) -> (r: Result<(), Error>)
        requires
            old(self).valid(),
        ensures
            final(self).valid(),
            final(self).is_soulbound == old(self).is_soulbound,
            set_arbiter_decided(*old(self), *final(self), caller, arbiter, r),
    {
        if caller != self.sender {
            return Err(Error::Unauthorized);
        }
        if self.cancelled {
            return Err(Error::AlreadyCancelled);
        }
        self.arbiter = Some(arbiter);
        Ok(())
    }

    /// Freeze the stream pending dispute resolution; withdrawals are
    /// rejected while frozen. Exclusively the appointed arbiter may freeze.
    pub fn freeze(&mut self, caller: u64) -> (r: Result<(), Error>)
        requires
            old(self).valid(),
        ensures
            final(self).valid(),
            final(self).is_soulbound == old(self).is_soulbound,
            freeze_decided(*old(self), *final(self), caller, r),
    {
        let authorized = match self.arbiter {
            Some(a) => a == caller,
            None => false,
        };
        if !authorized {
            return Err(Error::Unauthorized);
        }
        if self.cancelled {
            return Err(Error::AlreadyCancelled);
        }
        self.is_frozen = true;
        Ok(())
    }

    /// Resolve a dispute: split the remaining balance by basis points
    /// between receiver and sender, overriding curve-based settlement, and
    /// close the stream. Exclusively the arbiter may resolve; a second
    /// resolution fails with `AlreadyCancelled` and never pays again.
    pub fn resolve_dispute(&mut self, caller: u64, receiver_bps: u32) -> (r: Result<
        CancelSettlement,
        Error,
    >)
        requires
            old(self).valid(),
        ensures
            final(self).valid(),
            final(self).is_soulbound == old(self).is_soulbound,
            r is Ok ==> r->Ok_0.to_receiver + r->Ok_0.to_sender == old(self).total_amount - old(
                self,
            ).withdrawn_amount,
            resolve_dispute_decided(*old(self), *final(self), caller, receiver_bps, r),
    {
        let authorized = match self.arbiter {
            Some(a) => a == caller,
            None => false,
        };
        if !authorized {
            return Err(Error::Unauthorized);
        }
        if self.cancelled {
            return Err(Error::AlreadyCancelled);
        }
        if receiver_bps > 10000 {
            return Err(Error::InvalidAmount);
        }
        let remaining = self.total_amount - self.withdrawn_amount;
        let to_receiver: i128 = if remaining > 0 {
            proof {
                crate::math::lemma_mul_window(remaining as int, receiver_bps as int, 10000);
                lemma_div_pos_is_pos(remaining * receiver_bps, 10000);
                lemma_multiply_divide_le(remaining * receiver_bps, 10000, remaining as int);
            }
            (remaining * (receiver_bps as i128)) / 10_000
        } else {
            0
        };
        let to_sender = remaining - to_receiver;
        let shares = self.vault_shares;
        self.cancelled = true;
        self.is_frozen = false;
        self.withdrawn_amount = self.total_amount;
        self.vault_shares = 0;
        Ok(CancelSettlement { to_receiver, to_sender, shares_redeemed: shares })
    }

    /// Compliance clawback: forcibly close the stream and route the whole
    /// unwithdrawn remainder to a designated issuer instead of the sender.
    /// The caller must hold the compliance-officer capability, which the
    /// host's authorization collaborator attests through
    /// `officer_is_compliance`. A second clawback fails with
    /// `AlreadyCancelled` and never pays again.
    pub fn governance_clawback(&mut self, officer_is_compliance: bool) -> (r: Result<
        WithdrawOutcome,
        Error,
    >)
        requires
            old(self).valid(),
        ensures
            final(self).valid(),
            final(self).is_soulbound == old(self).is_soulbound,
            r is Ok ==> r->Ok_0.amount == old(self).total_amount - old(self).withdrawn_amount,
            clawback_decided(*old(self), *final(self), officer_is_compliance, r),
    {
        if !officer_is_compliance {
            return Err(Error::Unauthorized);
        }
        if self.cancelled {
            return Err(Error::AlreadyCancelled);
        }
        let amount = self.total_amount - self.withdrawn_amount;
        let shares = self.vault_shares;
        self.cancelled = true;
        self.withdrawn_amount = self.total_amount;
        self.vault_shares = 0;
        Ok(WithdrawOutcome { amount, shares_redeemed: shares })
    }
}

} // verus!
