//! Keyed lifecycle entry points on the stream record store, plus the
//! multisig proposal flow, contributor requests, and voting-power views.
//!
//! Every mutating entry point decides exactly as the record-level
//! transition in `settle` does, after resolving the id; an unknown id
//! fails with `StreamNotFound` and changes nothing.

use vstd::prelude::*;

verus! {

use crate::settle::{
    cancel_decided,
    clawback_decided,
    freeze_decided,
    pause_decided,
    resolve_dispute_decided,
    set_arbiter_decided,
    top_up_decided,
    transfer_receipt_decided,
    transfer_receiver_decided,
    unpause_decided,
    withdraw_decided,
};
use crate::store::{created_stream, entry_mut, ClawbackSettlement, StreamStore};
use crate::types::{
    CancelSettlement,
    ContributorRequest,
    CurveType,
    Error,
    Milestone,
    PriceQuote,
    RequestStatus,
    Stream,
    StreamProposal,
    StreamReceipt,
    WithdrawOutcome,
};
use crate::voting::{get_total_balance, get_voting_power, voting_power};

/// Whether `needle` occurs in the vector.
fn vec_contains_u64(v: &Vec<u64>, needle: u64) -> (r: bool)
    ensures
        r == v@.contains(needle),
{
    let mut i: usize = 0;
    while i < v.len()
        invariant
            0 <= i <= v@.len(),
            forall|k: int| 0 <= k < i ==> v@[k] != needle,
        decreases v@.len() - i,
    {
        if v[i] == needle {
            return true;
        }
        i = i + 1;
    }
    false
}

impl StreamStore {
    /// Withdraw everything currently due on stream `stream_id` to its
    /// receipt owner; `quote` carries the host-fetched oracle price for
    /// USD-pegged streams.
    #[verifier::rlimit(60)]
    pub fn withdraw(&mut self, stream_id: u64, caller: u64, now: u64, quote: Option<PriceQuote>)
        -> (r: Result<WithdrawOutcome, Error>)
        requires
            old(self).wf(),
        ensures
            final(self).wf(),
            ({
                if stream_id >= old(self).streams@.len() {
                    r == Err::<WithdrawOutcome, Error>(Error::StreamNotFound) && *final(self)
                        == *old(self)
                } else {
                    old(self).only_stream_changed(*final(self), stream_id as int)
                        && withdraw_decided(
                        old(self).streams@[stream_id as int],
                        final(self).streams@[stream_id as int],
                        caller,
                        now as int,
                        quote,
                        r,
                    )
                }
            }),
    {
        if stream_id >= self.streams.len() as u64 {
            return Err(Error::StreamNotFound);
        }
        let s = entry_mut(&mut self.streams, stream_id as usize);
        s.withdraw(caller, now, quote)
    }

    /// Cancel stream `stream_id`: unlocked-but-unwithdrawn funds go to the
    /// receipt owner, the rest back to the sender.
    #[verifier::rlimit(60)]
    pub fn cancel(&mut self, stream_id: u64, caller: u64, now: u64) -> (r: Result<
        CancelSettlement,
        Error,
    >)
        requires
            old(self).wf(),
        ensures
            final(self).wf(),
            r is Ok ==> r->Ok_0.to_receiver + r->Ok_0.to_sender == old(self).streams@[stream_id
                as int].total_amount - old(self).streams@[stream_id as int].withdrawn_amount,
            ({
                if stream_id >= old(self).streams@.len() {
                    r == Err::<CancelSettlement, Error>(Error::StreamNotFound) && *final(self)
                        == *old(self)
                } else {
                    old(self).only_stream_changed(*final(self), stream_id as int)
                        && cancel_decided(
                        old(self).streams@[stream_id as int],
                        final(self).streams@[stream_id as int],
                        caller,
                        now as int,
                        r,
                    )
                }
            }),
    {
        if stream_id >= self.streams.len() as u64 {
            return Err(Error::StreamNotFound);
        }
        let s = entry_mut(&mut self.streams, stream_id as usize);
        s.cancel(caller, now)
    }

    /// Top up stream `stream_id` with extra funds at the original flow
    /// rate.
    #[verifier::rlimit(60)]
    pub fn top_up_stream(&mut self, stream_id: u64, sender: u64, amount: i128, now: u64) -> (r:
        Result<(), Error>)
        requires
            old(self).wf(),
        ensures
            final(self).wf(),
            ({
                if stream_id >= old(self).streams@.len() {
                    r == Err::<(), Error>(Error::StreamNotFound) && *final(self) == *old(self)
                } else {
                    old(self).only_stream_changed(*final(self), stream_id as int)
                        && top_up_decided(
                        old(self).streams@[stream_id as int],
                        final(self).streams@[stream_id as int],
                        sender,
                        amount as int,
                        now as int,
                        r,
                    )
                }
            }),
    {
        if stream_id >= self.streams.len() as u64 {
            return Err(Error::StreamNotFound);
        }
        let s = entry_mut(&mut self.streams, stream_id as usize);
        s.top_up(sender, amount, now)
    }

    /// Pause stream `stream_id`; repeating the call is a no-op success.
    #[verifier::rlimit(60)]
    pub fn pause_stream(&mut self, stream_id: u64, caller: u64, now: u64) -> (r: Result<(), Error>)
        requires
            old(self).wf(),
        ensures
            final(self).wf(),
            ({
                if stream_id >= old(self).streams@.len() {
                    r == Err::<(), Error>(Error::StreamNotFound) && *final(self) == *old(self)
                } else {
                    old(self).only_stream_changed(*final(self), stream_id as int)
                        && pause_decided(
                        old(self).streams@[stream_id as int],
                        final(self).streams@[stream_id as int],
                        caller,
                        now,
                        r,
                    )
                }
            }),
    {
        if stream_id >= self.streams.len() as u64 {
            return Err(Error::StreamNotFound);
        }
        let s = entry_mut(&mut self.streams, stream_id as usize);
        s.pause(caller, now)
    }

    /// Unpause stream `stream_id`, crediting the pause's length to the
    /// paused total; repeating the call is a no-op success.
    #[verifier::rlimit(60)]
    pub fn unpause_stream(&mut self, stream_id: u64, caller: u64, now: u64) -> (r: Result<
        (),
        Error,
    >)
        requires
            old(self).wf(),
            ({
                let n = old(self).streams@.len();
                stream_id < n ==> {
                    let s = old(self).streams@[stream_id as int];
                    (caller == s.sender && !s.cancelled && s.is_paused) ==> now >= s.paused_time
                        && s.end_time + s.total_paused_duration + (now - s.paused_time)
                        <= u64::MAX
                }
            }),
        ensures
            final(self).wf(),
            ({
                if stream_id >= old(self).streams@.len() {
                    r == Err::<(), Error>(Error::StreamNotFound) && *final(self) == *old(self)
                } else {
                    old(self).only_stream_changed(*final(self), stream_id as int)
                        && unpause_decided(
                        old(self).streams@[stream_id as int],
                        final(self).streams@[stream_id as int],
                        caller,
                        now,
                        r,
                    )
                }
            }),
    {
        if stream_id >= self.streams.len() as u64 {
            return Err(Error::StreamNotFound);
        }
        let s = entry_mut(&mut self.streams, stream_id as usize);
        s.unpause(caller, now)
    }

    /// Reassign the vesting beneficiary of stream `stream_id`; soulbound
    /// streams reject before any other check.
    #[verifier::rlimit(60)]
    pub fn transfer_receiver(&mut self, stream_id: u64, caller: u64, new_receiver: u64) -> (r:
        Result<(), Error>)
        requires
            old(self).wf(),
        ensures
            final(self).wf(),
            stream_id < old(self).streams@.len() && old(self).streams@[stream_id
                as int].is_soulbound ==> r == Err::<(), Error>(Error::StreamIsSoulbound),
            ({
                if stream_id >= old(self).streams@.len() {
                    r == Err::<(), Error>(Error::StreamNotFound) && *final(self) == *old(self)
                } else {
                    old(self).only_stream_changed(*final(self), stream_id as int)
                        && transfer_receiver_decided(
                        old(self).streams@[stream_id as int],
                        final(self).streams@[stream_id as int],
                        caller,
                        new_receiver,
                        r,
                    )
                }
            }),
    {
        if stream_id >= self.streams.len() as u64 {
            return Err(Error::StreamNotFound);
        }
        let s = entry_mut(&mut self.streams, stream_id as usize);
        s.transfer_receiver(caller, new_receiver)
    }

    /// Hand the receipt of stream `stream_id` to a new owner; the stream's
    /// receipt-owner field and the receipt record move together.
    #[verifier::rlimit(60)]
    pub fn transfer_receipt(&mut self, stream_id: u64, from: u64, to: u64) -> (r: Result<
        (),
        Error,
    >)
        requires
            old(self).wf(),
        ensures
            final(self).wf(),
            ({
                if stream_id >= old(self).streams@.len() {
                    r == Err::<(), Error>(Error::StreamNotFound) && *final(self) == *old(self)
                } else {
                    let rc = old(self).receipts@[stream_id as int];
                    &&& transfer_receipt_decided(
                        old(self).streams@[stream_id as int],
                        final(self).streams@[stream_id as int],
                        from,
                        to,
                        r,
                    )
                    &&& final(self).streams@.len() == old(self).streams@.len()
                    &&& (forall|j: int|
                        0 <= j < old(self).streams@.len() && j != stream_id as int ==> final(self).streams@[j] == #[trigger] old(self).streams@[j])
                    &&& final(self).receipts@ == if r is Ok {
                        old(self).receipts@.update(
                            stream_id as int,
                            StreamReceipt {
                                stream_id: rc.stream_id,
                                owner: to,
                                minted_at: rc.minted_at,
                            },
                        )
                    } else {
                        old(self).receipts@
                    }
                    &&& final(self).delegates@ == old(self).delegates@
                    &&& old(self).same_registries(*final(self))
                }
            }),
    {
        if stream_id >= self.streams.len() as u64 {
            return Err(Error::StreamNotFound);
        }
        let i = stream_id as usize;
        let s = entry_mut(&mut self.streams, i);
        let r = s.transfer_receipt(from, to);
        match r {
            Ok(_) => {
                let rc = self.receipts[i];
                let slot = entry_mut(&mut self.receipts, i);
                *slot = StreamReceipt { stream_id: rc.stream_id, owner: to, minted_at: rc.minted_at };
                Ok(())
            },
            Err(e) => Err(e),
        }
    }

    /// Appoint the arbiter for stream `stream_id`.
    #[verifier::rlimit(60)]
    pub fn set_arbiter(&mut self, stream_id: u64, caller: u64, arbiter: u64) -> (r: Result<
        (),
        Error,
    >)
        requires
            old(self).wf(),
        ensures
            final(self).wf(),
            ({
                if stream_id >= old(self).streams@.len() {
                    r == Err::<(), Error>(Error::StreamNotFound) && *final(self) == *old(self)
                } else {
                    old(self).only_stream_changed(*final(self), stream_id as int)
                        && set_arbiter_decided(
                        old(self).streams@[stream_id as int],
                        final(self).streams@[stream_id as int],
                        caller,
                        arbiter,
                        r,
                    )
                }
            }),
    {
        if stream_id >= self.streams.len() as u64 {
            return Err(Error::StreamNotFound);
        }
        let s = entry_mut(&mut self.streams, stream_id as usize);
        s.set_arbiter(caller, arbiter)
    }

    /// Freeze stream `stream_id` pending dispute resolution; exclusively
    /// the appointed arbiter may freeze.
    #[verifier::rlimit(60)]
    pub fn freeze_stream(&mut self, stream_id: u64, caller: u64) -> (r: Result<(), Error>)
        requires
            old(self).wf(),
        ensures
            final(self).wf(),
            ({
                if stream_id >= old(self).streams@.len() {
                    r == Err::<(), Error>(Error::StreamNotFound) && *final(self) == *old(self)
                } else {
                    old(self).only_stream_changed(*final(self), stream_id as int)
                        && freeze_decided(
                        old(self).streams@[stream_id as int],
                        final(self).streams@[stream_id as int],
                        caller,
                        r,
                    )
                }
            }),
    {
        if stream_id >= self.streams.len() as u64 {
            return Err(Error::StreamNotFound);
        }
        let s = entry_mut(&mut self.streams, stream_id as usize);
        s.freeze(caller)
    }

    /// Resolve the dispute on stream `stream_id`, splitting the remaining
    /// balance by basis points between receiver and sender.
    #[verifier::rlimit(60)]
    pub fn resolve_dispute(&mut self, stream_id: u64, caller: u64, receiver_bps: u32) -> (r:
        Result<CancelSettlement, Error>)
        requires
            old(self).wf(),
        ensures
            final(self).wf(),
            r is Ok ==> r->Ok_0.to_receiver + r->Ok_0.to_sender == old(self).streams@[stream_id
                as int].total_amount - old(self).streams@[stream_id as int].withdrawn_amount,
            ({
                if stream_id >= old(self).streams@.len() {
                    r == Err::<CancelSettlement, Error>(Error::StreamNotFound) && *final(self)
                        == *old(self)
                } else {
                    old(self).only_stream_changed(*final(self), stream_id as int)
                        && resolve_dispute_decided(
                        old(self).streams@[stream_id as int],
                        final(self).streams@[stream_id as int],
                        caller,
                        receiver_bps,
                        r,
                    )
                }
            }),
    {
        if stream_id >= self.streams.len() as u64 {
            return Err(Error::StreamNotFound);
        }
        let s = entry_mut(&mut self.streams, stream_id as usize);
        s.resolve_dispute(caller, receiver_bps)
    }

    /// Claw back stream `stream_id` for compliance: the unwithdrawn
    /// remainder is routed to `issuer` instead of the sender. The host's
    /// authorization collaborator attests the officer's capability through
    /// `officer_is_compliance`.
    #[verifier::rlimit(60)]
    pub fn governance_clawback(
        &mut self,
        stream_id: u64,
        officer_is_compliance: bool,
        issuer: u64,
    ) -> (r: Result<ClawbackSettlement, Error>)
        requires
            old(self).wf(),
        ensures
            final(self).wf(),
            r is Ok ==> r->Ok_0.issuer == issuer && r->Ok_0.amount == old(self).streams@[stream_id
                as int].total_amount - old(self).streams@[stream_id as int].withdrawn_amount,
            ({
                if stream_id >= old(self).streams@.len() {
                    r == Err::<ClawbackSettlement, Error>(Error::StreamNotFound) && *final(self)
                        == *old(self)
                } else {
                    let inner = (match r {
                        Ok(c) => Ok::<WithdrawOutcome, Error>(
                            WithdrawOutcome { amount: c.amount, shares_redeemed: c.shares_redeemed },
                        ),
                        Err(e) => Err::<WithdrawOutcome, Error>(e),
                    });
                    old(self).only_stream_changed(*final(self), stream_id as int)
                        && clawback_decided(
                        old(self).streams@[stream_id as int],
                        final(self).streams@[stream_id as int],
                        officer_is_compliance,
                        inner,
                    )
                }
            }),
    {
        if stream_id >= self.streams.len() as u64 {
            return Err(Error::StreamNotFound);
        }
        let s = entry_mut(&mut self.streams, stream_id as usize);
        match s.governance_clawback(officer_is_compliance) {
            Ok(out) => Ok(
                ClawbackSettlement {
                    issuer,
                    amount: out.amount,
                    shares_redeemed: out.shares_redeemed,
                },
            ),
            Err(e) => Err(e),
        }
    }

    /// Voting power of stream `stream_id` at `now`: the withdrawable
    /// balance, 0 once cancelled.
    pub fn get_voting_power(&self, stream_id: u64, now: u64) -> (r: Result<i128, Error>)
        requires
            self.wf(),
        ensures
            stream_id >= self.streams@.len() ==> r == Err::<i128, Error>(Error::StreamNotFound),
            stream_id < self.streams@.len() ==> r == Ok::<i128, Error>(
                voting_power(self.streams@[stream_id as int], now as int) as i128,
            ),
    {
        if stream_id >= self.streams.len() as u64 {
            return Err(Error::StreamNotFound);
        }
        Ok(get_voting_power(&self.streams[stream_id as usize], now))
    }

    /// Whole balance still sitting in stream `stream_id` (locked plus
    /// unlocked), 0 once cancelled.
    pub fn get_total_stream_balance(&self, stream_id: u64) -> (r: Result<i128, Error>)
        requires
            self.wf(),
        ensures
            stream_id >= self.streams@.len() ==> r == Err::<i128, Error>(Error::StreamNotFound),
            stream_id < self.streams@.len() ==> ({
                let s = self.streams@[stream_id as int];
                r == Ok::<i128, Error>(
                    (if s.cancelled {
                        0int
                    } else {
                        s.total_amount - s.withdrawn_amount
                    }) as i128,
                )
            }),
    {
        if stream_id >= self.streams.len() as u64 {
            return Err(Error::StreamNotFound);
        }
        Ok(get_total_balance(&self.streams[stream_id as usize]))
    }

    /// Whether `caller` holds the receipt of stream `stream_id` and may
    /// delegate its voting power.
    pub fn can_delegate(&self, stream_id: u64, caller: u64) -> (r: Result<bool, Error>)
        requires
            self.wf(),
        ensures
            stream_id >= self.receipts@.len() ==> r == Err::<bool, Error>(Error::StreamNotFound),
            stream_id < self.receipts@.len() ==> r == Ok::<bool, Error>(
                self.receipts@[stream_id as int].owner == caller,
            ),
    {
        if stream_id >= self.receipts.len() as u64 {
            return Err(Error::StreamNotFound);
        }
        Ok(self.receipts[stream_id as usize].owner == caller)
    }

    /// Delegate the voting power of stream `stream_id`; only the receipt
    /// owner may delegate.
    pub fn delegate_voting_power(&mut self, stream_id: u64, caller: u64, delegate: u64) -> (r:
        Result<(), Error>)
        requires
            old(self).wf(),
        ensures
            final(self).wf(),
            r is Err ==> *final(self) == *old(self),
            ({
                if stream_id >= old(self).streams@.len() {
                    r == Err::<(), Error>(Error::StreamNotFound)
                } else if old(self).receipts@[stream_id as int].owner != caller {
                    r == Err::<(), Error>(Error::NotReceiptOwner)
                } else {
                    r == Ok::<(), Error>(()) && final(self).delegates@ == old(self).delegates@.update(stream_id as int, Some(delegate)) && final(self).streams@
                        == old(self).streams@ && final(self).receipts@ == old(self).receipts@
                        && old(self).same_registries(*final(self))
                }
            }),
    {
        if stream_id >= self.streams.len() as u64 {
            return Err(Error::StreamNotFound);
        }
        let i = stream_id as usize;
        if self.receipts[i].owner != caller {
            return Err(Error::NotReceiptOwner);
        }
        let slot = entry_mut(&mut self.delegates, i);
        *slot = Some(delegate);
        Ok(())
    }

    /// The delegate of stream `stream_id`'s voting power, if any was set.
    pub fn get_voting_delegate(&self, stream_id: u64) -> (r: Option<u64>)
        requires
            self.wf(),
        ensures
            stream_id >= self.delegates@.len() ==> r is None,
            stream_id < self.delegates@.len() ==> r == self.delegates@[stream_id as int],
    {
        if stream_id >= self.delegates.len() as u64 {
            return None;
        }
        self.delegates[stream_id as usize]
    }

    /// Sum of the voting power of the first `n` streams whose power is
    /// delegated to `delegate`.
    pub open spec fn delegated_power_upto(self, delegate: u64, now: int, n: int) -> int
        decreases n,
    {
        if n <= 0 {
            0
        } else {
            self.delegated_power_upto(delegate, now, n - 1) + (if self.delegates@[n - 1] == Some(
                delegate,
            ) {
                voting_power(self.streams@[n - 1], now)
            } else {
                0
            })
        }
    }

    /// Total voting power delegated to `delegate` across all streams at
    /// `now`. The caller guarantees every partial sum stays representable.
    pub fn get_delegated_voting_power(&self, delegate: u64, now: u64) -> (r: i128)
        requires
            self.wf(),
            forall|n: int|
                0 <= n <= self.streams@.len() ==> i128::MIN <= #[trigger] self.delegated_power_upto(
                    delegate,
                    now as int,
                    n,
                ) <= i128::MAX,
        ensures
            r == self.delegated_power_upto(delegate, now as int, self.streams@.len() as int),
    {
        let mut total_power: i128 = 0;
        let mut i: usize = 0;
        while i < self.streams.len()
            invariant
                self.wf(),
                0 <= i <= self.streams@.len(),
                total_power == self.delegated_power_upto(delegate, now as int, i as int),
                forall|n: int|
                    0 <= n <= self.streams@.len() ==> i128::MIN
                        <= #[trigger] self.delegated_power_upto(delegate, now as int, n)
                        <= i128::MAX,
            decreases self.streams@.len() - i,
        {
            let delegated = match self.delegates[i] {
                Some(d) => d == delegate,
                None => false,
            };
            if delegated {
                let power = get_voting_power(&self.streams[i], now);
                proof {
                    assert(self.delegated_power_upto(delegate, now as int, i + 1 as int)
                        == self.delegated_power_upto(delegate, now as int, i as int) + power);
                }
                total_power = total_power + power;
            }
            i = i + 1;
        }
        total_power
    }

    /// File a multisig proposal to create a stream. The proposal is
    /// validated on entry, so a proposal that reaches its threshold always
    /// creates its stream.
    pub fn create_proposal(
        &mut self,
        sender: u64,
        receiver: u64,
        token: u64,
        total_amount: i128,
        start_time: u64,
        end_time: u64,
        required_approvals: u32,
        deadline: u64,
        now: u64,
    ) -> (r: Result<u64, Error>)
        requires
            old(self).wf(),
        ensures
            final(self).wf(),
            r is Err ==> *final(self) == *old(self),
            ({
                let n = old(self).proposals@.len() as int;
                if start_time >= end_time {
                    r == Err::<u64, Error>(Error::InvalidTimeRange)
                } else if total_amount <= 0 || !crate::store::amount_bounds_ok(
                    total_amount as int,
                    start_time as int,
                    end_time as int,
                ) {
                    r == Err::<u64, Error>(Error::InvalidAmount)
                } else if required_approvals == 0 {
                    r == Err::<u64, Error>(Error::InvalidApprovalThreshold)
                } else if deadline <= now {
                    r == Err::<u64, Error>(Error::ProposalExpired)
                } else {
                    let p = final(self).proposals@[n];
                    &&& r == Ok::<u64, Error>(n as u64)
                    &&& final(self).proposals@.len() == n + 1
                    &&& (forall|j: int|
                        0 <= j < n ==> final(self).proposals@[j] == #[trigger] old(self).proposals@[j])
                    &&& p.sender == sender
                    &&& p.receiver == receiver
                    &&& p.token == token
                    &&& p.total_amount == total_amount
                    &&& p.start_time == start_time
                    &&& p.end_time == end_time
                    &&& p.approvers@.len() == 0
                    &&& p.required_approvals == required_approvals
                    &&& p.deadline == deadline
                    &&& !p.executed
                    &&& final(self).streams@ == old(self).streams@
                    &&& final(self).receipts@ == old(self).receipts@
                    &&& final(self).delegates@ == old(self).delegates@
                    &&& final(self).approved_vaults@ == old(self).approved_vaults@
                    &&& final(self).requests@ == old(self).requests@
                }
            }),
    {
        if start_time >= end_time {
            return Err(Error::InvalidTimeRange);
        }
        if total_amount <= 0 {
            return Err(Error::InvalidAmount);
        }
        proof {
            crate::math::lemma_le_div_iff_mul_le(total_amount as int, i128::MAX as int, 10000);
        }
        if total_amount > i128::MAX / 10000 {
            return Err(Error::InvalidAmount);
        }
        let duration = (end_time - start_time) as i128;
        proof {
            crate::math::lemma_le_div_iff_mul_le(
                total_amount as int,
                i128::MAX as int,
                duration as int,
            );
        }
        if total_amount > i128::MAX / duration {
            return Err(Error::InvalidAmount);
        }
        if required_approvals == 0 {
            return Err(Error::InvalidApprovalThreshold);
        }
        if deadline <= now {
            return Err(Error::ProposalExpired);
        }
        let id = self.proposals.len() as u64;
        let approvers: Vec<u64> = Vec::new();
        self.proposals.push(
            StreamProposal {
                sender,
                receiver,
                token,
                total_amount,
                start_time,
                end_time,
                approvers,
                required_approvals,
                deadline,
                executed: false,
            },
        );
        Ok(id)
    }

    /// Read a proposal record.
    pub fn get_proposal(&self, proposal_id: u64) -> (r: Result<&StreamProposal, Error>)
        ensures
            proposal_id < self.proposals@.len() ==> (r matches Ok(p) && *p
                == self.proposals@[proposal_id as int]),
            proposal_id >= self.proposals@.len() ==> r == Err::<&StreamProposal, Error>(
                Error::ProposalNotFound,
            ),
    {
        if proposal_id >= self.proposals.len() as u64 {
            return Err(Error::ProposalNotFound);
        }
        Ok(&self.proposals[proposal_id as usize])
    }

    /// Record one approval on a proposal; each approver counts once, and
    /// the approval that reaches the threshold executes the proposal,
    /// creating its stream. `executed` flips exactly once: later approvals
    /// fail with `ProposalAlreadyExecuted`.
    pub fn approve_proposal(&mut self, proposal_id: u64, approver: u64, now: u64) -> (r: Result<
        (),
        Error,
    >)
        requires
            old(self).wf(),
        ensures
            final(self).wf(),
            r is Err ==> *final(self) == *old(self),
            ({
                let np = old(self).proposals@.len();
                let ns = old(self).streams@.len() as int;
                if proposal_id >= np {
                    r == Err::<(), Error>(Error::ProposalNotFound)
                } else {
                    let p = old(self).proposals@[proposal_id as int];
                    let reached = p.approvers@.len() + 1 >= p.required_approvals;
                    if p.executed {
                        r == Err::<(), Error>(Error::ProposalAlreadyExecuted)
                    } else if now > p.deadline {
                        r == Err::<(), Error>(Error::ProposalExpired)
                    } else if p.approvers@.contains(approver) {
                        r == Err::<(), Error>(Error::AlreadyApproved)
                    } else {
                        let p2 = final(self).proposals@[proposal_id as int];
                        &&& r == Ok::<(), Error>(())
                        &&& final(self).proposals@.len() == np
                        &&& (forall|j: int|
                            0 <= j < np && j != proposal_id as int ==> final(self).proposals@[j]
                                == #[trigger] old(self).proposals@[j])
                        &&& p2.approvers@ == p.approvers@.push(approver)
                        &&& p2.executed == reached
                        &&& p2.sender == p.sender
                        &&& p2.receiver == p.receiver
                        &&& p2.token == p.token
                        &&& p2.total_amount == p.total_amount
                        &&& p2.start_time == p.start_time
                        &&& p2.end_time == p.end_time
                        &&& p2.required_approvals == p.required_approvals
                        &&& p2.deadline == p.deadline
                        &&& final(self).approved_vaults@ == old(self).approved_vaults@
                        &&& final(self).requests@ == old(self).requests@
                        &&& if reached {
                            &&& final(self).streams@.len() == ns + 1
                            &&& (forall|j: int|
                                0 <= j < ns ==> final(self).streams@[j] == #[trigger] old(self).streams@[j])
                            &&& created_stream(
                                final(self).streams@[ns],
                                p.sender,
                                p.receiver,
                                p.token,
                                p.total_amount,
                                p.start_time,
                                p.end_time,
                                None,
                                Seq::<Milestone>::empty(),
                                CurveType::Linear,
                                0,
                                None,
                                None,
                                None,
                                false,
                            )
                            &&& final(self).receipts@ == old(self).receipts@.push(
                                StreamReceipt {
                                    stream_id: ns as u64,
                                    owner: p.receiver,
                                    minted_at: now,
                                },
                            )
                            &&& final(self).delegates@ == old(self).delegates@.push(None)
                        } else {
                            &&& final(self).streams@ == old(self).streams@
                            &&& final(self).receipts@ == old(self).receipts@
                            &&& final(self).delegates@ == old(self).delegates@
                        }
                    }
                }
            }),
    {
        if proposal_id >= self.proposals.len() as u64 {
            return Err(Error::ProposalNotFound);
        }
        let i = proposal_id as usize;
        if self.proposals[i].executed {
            return Err(Error::ProposalAlreadyExecuted);
        }
        if now > self.proposals[i].deadline {
            return Err(Error::ProposalExpired);
        }
        if vec_contains_u64(&self.proposals[i].approvers, approver) {
            return Err(Error::AlreadyApproved);
        }
        let sender = self.proposals[i].sender;
        let receiver = self.proposals[i].receiver;
        let token = self.proposals[i].token;
        let total_amount = self.proposals[i].total_amount;
        let start_time = self.proposals[i].start_time;
        let end_time = self.proposals[i].end_time;
        let required = self.proposals[i].required_approvals;
        let reached: bool;
        {
            let p = entry_mut(&mut self.proposals, i);
            p.approvers.push(approver);
            reached = p.approvers.len() >= required as usize;
            if reached {
                p.executed = true;
            }
        }
        if reached {
            let milestones: Vec<Milestone> = Vec::new();
            let stream = Stream {
                sender,
                receiver,
                token,
                total_amount,
                start_time,
                end_time,
                cliff_time: None,
                withdrawn_amount: 0,
                cancelled: false,
                receipt_owner: receiver,
                is_paused: false,
                paused_time: 0,
                total_paused_duration: 0,
                milestones,
                curve_type: CurveType::Linear,
                interest_strategy: 0,
                vault_address: None,
                deposited_principal: total_amount,
                vault_shares: 0,
                metadata: None,
                usd_peg: None,
                is_soulbound: false,
                clawback_enabled: false,
                arbiter: None,
                is_frozen: false,
            };
            self.push_stream(stream, now);
        }
        Ok(())
    }

    /// File a contributor payment request; it vests from the moment it is
    /// filed, once executed.
    pub fn create_request(
        &mut self,
        receiver: u64,
        token: u64,
        total_amount: i128,
        duration: u64,
        metadata: Option<u64>,
        now: u64,
    ) -> (r: u64)
        requires
            old(self).wf(),
            old(self).requests@.len() < u64::MAX,
        ensures
            final(self).wf(),
            r == old(self).requests@.len() + 1,
            final(self).requests@ == old(self).requests@.push(
                ContributorRequest {
                    id: (old(self).requests@.len() + 1) as u64,
                    receiver,
                    token,
                    total_amount,
                    duration,
                    start_time: now,
                    status: RequestStatus::Pending,
                    metadata,
                },
            ),
            final(self).streams@ == old(self).streams@,
            final(self).receipts@ == old(self).receipts@,
            final(self).delegates@ == old(self).delegates@,
            final(self).approved_vaults@ == old(self).approved_vaults@,
            final(self).proposals@ == old(self).proposals@,
    {
        let id = (self.requests.len() as u64) + 1;
        self.requests.push(
            ContributorRequest {
                id,
                receiver,
                token,
                total_amount,
                duration,
                start_time: now,
                status: RequestStatus::Pending,
                metadata,
            },
        );
        id
    }

    /// Read a contributor request by its 1-based id.
    pub fn get_request(&self, request_id: u64) -> (r: Option<ContributorRequest>)
        ensures
            (1 <= request_id && request_id <= self.requests@.len()) ==> r == Some(
                self.requests@[request_id as int - 1],
            ),
            !(1 <= request_id && request_id <= self.requests@.len()) ==> r is None,
    {
        if request_id == 0 || request_id > self.requests.len() as u64 {
            return None;
        }
        Some(self.requests[(request_id - 1) as usize])
    }

    /// Execute a pending contributor request: an administrator turns it
    /// into a stream vesting linearly from its filing time. A second
    /// execution fails with `AlreadyExecuted`. The host's authorization
    /// collaborator attests the administrator capability through
    /// `caller_is_admin`.
    pub fn execute_request(
        &mut self,
        admin: u64,
        caller_is_admin: bool,
        request_id: u64,
        now: u64,
    ) -> (r: Result<u64, Error>)
        requires
            old(self).wf(),
        ensures
            final(self).wf(),
            r is Err ==> *final(self) == *old(self),
            ({
                let ns = old(self).streams@.len() as int;
                if !caller_is_admin {
                    r == Err::<u64, Error>(Error::Unauthorized)
                } else if request_id == 0 || request_id > old(self).requests@.len() {
                    r == Err::<u64, Error>(Error::StreamNotFound)
                } else {
                    let q = old(self).requests@[request_id as int - 1];
                    let end = q.start_time + q.duration;
                    if q.status != RequestStatus::Pending {
                        r == Err::<u64, Error>(Error::AlreadyExecuted)
                    } else if q.duration == 0 || end > u64::MAX {
                        r == Err::<u64, Error>(Error::InvalidTimeRange)
                    } else if q.total_amount <= 0 || !crate::store::amount_bounds_ok(
                        q.total_amount as int,
                        q.start_time as int,
                        end,
                    ) {
                        r == Err::<u64, Error>(Error::InvalidAmount)
                    } else {
                        &&& r == Ok::<u64, Error>(ns as u64)
                        &&& final(self).streams@.len() == ns + 1
                        &&& (forall|j: int|
                            0 <= j < ns ==> final(self).streams@[j] == #[trigger] old(self).streams@[j])
                        &&& created_stream(
                            final(self).streams@[ns],
                            admin,
                            q.receiver,
                            q.token,
                            q.total_amount,
                            q.start_time,
                            end as u64,
                            None,
                            Seq::<Milestone>::empty(),
                            CurveType::Linear,
                            0,
                            None,
                            None,
                            None,
                            false,
                        )
                        &&& final(self).receipts@ == old(self).receipts@.push(
                            StreamReceipt {
                                stream_id: ns as u64,
                                owner: q.receiver,
                                minted_at: now,
                            },
                        )
                        &&& final(self).delegates@ == old(self).delegates@.push(None)
                        &&& final(self).requests@ == old(self).requests@.update(
                            request_id as int - 1,
                            ContributorRequest { status: RequestStatus::Approved, ..q },
                        )
                        &&& final(self).approved_vaults@ == old(self).approved_vaults@
                        &&& final(self).proposals@ == old(self).proposals@
                    }
                }
            }),
    {
        if !caller_is_admin {
            return Err(Error::Unauthorized);
        }
        if request_id == 0 || request_id > self.requests.len() as u64 {
            return Err(Error::StreamNotFound);
        }
        let i = (request_id - 1) as usize;
        let q = self.requests[i];
        let pending = match q.status {
            RequestStatus::Pending => true,
            _ => false,
        };
        if !pending {
            return Err(Error::AlreadyExecuted);
        }
        if q.duration == 0 || q.duration > u64::MAX - q.start_time {
            return Err(Error::InvalidTimeRange);
        }
        let end = q.start_time + q.duration;
        if q.total_amount <= 0 {
            return Err(Error::InvalidAmount);
        }
        proof {
            crate::math::lemma_le_div_iff_mul_le(q.total_amount as int, i128::MAX as int, 10000);
        }
        if q.total_amount > i128::MAX / 10000 {
            return Err(Error::InvalidAmount);
        }
        let dur_i = q.duration as i128;
        proof {
            crate::math::lemma_le_div_iff_mul_le(q.total_amount as int, i128::MAX as int, dur_i as int);
        }
        if q.total_amount > i128::MAX / dur_i {
            return Err(Error::InvalidAmount);
        }
        let milestones: Vec<Milestone> = Vec::new();
        let stream = Stream {
            sender: admin,
            receiver: q.receiver,
            token: q.token,
            total_amount: q.total_amount,
            start_time: q.start_time,
            end_time: end,
            cliff_time: None,
            withdrawn_amount: 0,
            cancelled: false,
            receipt_owner: q.receiver,
            is_paused: false,
            paused_time: 0,
            total_paused_duration: 0,
            milestones,
            curve_type: CurveType::Linear,
            interest_strategy: 0,
            vault_address: None,
            deposited_principal: q.total_amount,
            vault_shares: 0,
            metadata: None,
            usd_peg: None,
            is_soulbound: false,
            clawback_enabled: false,
            arbiter: None,
            is_frozen: false,
        };
        let sid = self.push_stream(stream, now);
        let slot = entry_mut(&mut self.requests, i);
        *slot = ContributorRequest {
            id: q.id,
            receiver: q.receiver,
            token: q.token,
            total_amount: q.total_amount,
            duration: q.duration,
            start_time: q.start_time,
            status: RequestStatus::Approved,
            metadata: q.metadata,
        };
        Ok(sid)
    }
}

} // verus!
