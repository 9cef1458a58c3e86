//! Stream record store: the orchestrator that owns the records, allocates
//! ids, mints receipts, and drives every lifecycle transition by id.
//!
//! The store holds plain vectors; a stream's id is its index, receipts and
//! voting delegates sit at the same index, and creation pushes all three
//! together. Every entry point checks its guards before any write, and the
//! keyed transitions decide exactly as the record-level transitions in
//! `settle` do.

use vstd::prelude::*;

verus! {

use crate::math::lemma_le_div_iff_mul_le;
use crate::oracle::{calculate_token_amount, quote_acceptable, usd_to_tokens, validate_quote};
use crate::types::{
    ContributorRequest,
    CurveType,
    Error,
    Milestone,
    PriceOracle,
    PriceQuote,
    ReceiptMetadata,
    Stream,
    StreamProposal,
    StreamReceipt,
    UsdPegConfig,
};
use crate::unlock::lemma_stream_unlocked_bounds;

/// What a clawback obliges the host to do: redeem the vault shares, then
/// move `amount` to the designated issuer.
#[derive(Clone, Copy, Debug, PartialEq, Eq, Structural)]
pub struct ClawbackSettlement {
    /// Where the clawed-back remainder goes.
    pub issuer: u64,
    /// Tokens to transfer to the issuer.
    pub amount: i128,
    /// Vault shares to redeem in the same atomic step.
    pub shares_redeemed: i128,
}

/// Mutable access to one vector entry.
pub(crate) fn entry_mut<T>(v: &mut Vec<T>, i: usize) -> (e: &mut T)
    requires
        i < old(v).len(),
    ensures
        *e == old(v)@[i as int],
        final(v)@ == old(v)@.update(i as int, *final(e)),
{
    &mut v[i]
}

/// Whether the settlement products of a stream of `total` over
/// `[start, end)` stay within `i128`: the basis-point scaling and the
/// time scaling both fit.
pub open spec fn amount_bounds_ok(total: int, start: int, end: int) -> bool {
    total * 10000 <= i128::MAX && total * (end - start) <= i128::MAX
}

/// Whether a milestone list is acceptable: percentages within [0, 100],
/// timestamps and percentages non-decreasing.
pub open spec fn milestones_ok(ms: Seq<Milestone>) -> bool {
    &&& (forall|i: int| 0 <= i < ms.len() ==> (#[trigger] ms[i]).percentage <= 100)
    &&& (forall|i: int|
        0 <= i < ms.len() - 1 ==> (#[trigger] ms[i]).timestamp <= ms[i + 1].timestamp && ms[
            i
        ].percentage <= ms[i + 1].percentage)
}

/// Field-wise description of a freshly created stream record: funded with
/// `total_amount`, nothing withdrawn, live, unpaused, unfrozen, receipt in
/// the receiver's hands, no arbiter appointed and no vault shares yet.
pub open spec fn created_stream(
    s: Stream,
    sender: u64,
    receiver: u64,
    token: u64,
    total_amount: i128,
    start_time: u64,
    end_time: u64,
    cliff_time: Option<u64>,
    milestones: Seq<Milestone>,
    curve_type: CurveType,
    interest_strategy: u32,
    vault_address: Option<u64>,
    metadata: Option<u64>,
    usd_peg: Option<UsdPegConfig>,
    is_soulbound: bool,
) -> bool {
    &&& s.sender == sender
    &&& s.receiver == receiver
    &&& s.token == token
    &&& s.total_amount == total_amount
    &&& s.start_time == start_time
    &&& s.end_time == end_time
    &&& s.cliff_time == cliff_time
    &&& s.withdrawn_amount == 0
    &&& !s.cancelled
    &&& s.receipt_owner == receiver
    &&& !s.is_paused
    &&& s.paused_time == 0
    &&& s.total_paused_duration == 0
    &&& s.milestones@ == milestones
    &&& s.curve_type == curve_type
    &&& s.interest_strategy == interest_strategy
    &&& s.vault_address == vault_address
    &&& s.deposited_principal == total_amount
    &&& s.vault_shares == 0
    &&& s.metadata == metadata
    &&& s.usd_peg == usd_peg
    &&& s.is_soulbound == is_soulbound
    &&& !s.clawback_enabled
    &&& s.arbiter is None
    &&& !s.is_frozen
}

/// Well-formedness of a proposal record.
pub open spec fn proposal_wf(p: StreamProposal) -> bool {
    &&& p.start_time < p.end_time
    &&& p.total_amount > 0
    &&& p.total_amount * 10000 <= i128::MAX
    &&& p.total_amount * ((p.end_time - p.start_time) as int) <= i128::MAX
    &&& p.required_approvals > 0
    &&& (forall|i: int, j: int|
        0 <= i < j < p.approvers@.len() ==> p.approvers@[i] != p.approvers@[j])
}

/// The stream record store. Stream ids are indices into `streams`;
/// `receipts` and `delegates` run in step with it. Proposal ids are
/// indices into `proposals`; contributor request ids are 1-based.
pub struct StreamStore {
    /// Every stream ever created, live and cancelled alike.
    pub streams: Vec<Stream>,
    /// One receipt per stream, at the stream's index.
    pub receipts: Vec<StreamReceipt>,
    /// Voting delegate per stream, at the stream's index.
    pub delegates: Vec<Option<u64>>,
    /// Vaults an administrator approved for custody.
    pub approved_vaults: Vec<u64>,
    /// Multisig stream proposals.
    pub proposals: Vec<StreamProposal>,
    /// Contributor payment requests (ids are 1-based).
    pub requests: Vec<ContributorRequest>,
}

impl StreamStore {
    /// Well-formedness of the store: the three per-stream vectors run in
    /// step, every stream record is valid, every receipt names its own
    /// index and mirrors its stream's receipt owner, and every proposal is
    /// well-formed with a duplicate-free approver set.
    pub open spec fn wf(self) -> bool {
        &&& self.streams@.len() == self.receipts@.len()
        &&& self.streams@.len() == self.delegates@.len()
        &&& (forall|i: int| 0 <= i < self.streams@.len() ==> (#[trigger] self.streams@[i]).valid())
        &&& (forall|i: int|
            0 <= i < self.receipts@.len() ==> (#[trigger] self.receipts@[i]).stream_id == i)
        &&& (forall|i: int|
            0 <= i < self.receipts@.len() ==> (#[trigger] self.receipts@[i]).owner
                == self.streams@[i].receipt_owner)
        &&& (forall|i: int|
            0 <= i < self.proposals@.len() ==> proposal_wf(#[trigger] self.proposals@[i]))
    }

    /// Everything outside the per-stream vectors is untouched.
    pub open spec fn same_registries(self, other: StreamStore) -> bool {
        &&& self.approved_vaults@ == other.approved_vaults@
        &&& self.proposals@ == other.proposals@
        &&& self.requests@ == other.requests@
    }

    /// One stream changed in place; everything else is exactly as it was.
    pub open spec fn only_stream_changed(self, other: StreamStore, id: int) -> bool {
        &&& other.streams@.len() == self.streams@.len()
        &&& (forall|j: int|
            0 <= j < self.streams@.len() && j != id ==> other.streams@[j] == #[trigger] self
                .streams@[j])
        &&& other.receipts@ == self.receipts@
        &&& other.delegates@ == self.delegates@
        &&& self.same_registries(other)
    }

    /// An empty store.
    pub fn new() -> (r: StreamStore)
        ensures
            r.wf(),
            r.streams@.len() == 0,
            r.receipts@.len() == 0,
            r.delegates@.len() == 0,
            r.approved_vaults@.len() == 0,
            r.proposals@.len() == 0,
            r.requests@.len() == 0,
    {
        StreamStore {
            streams: Vec::new(),
            receipts: Vec::new(),
            delegates: Vec::new(),
            approved_vaults: Vec::new(),
            proposals: Vec::new(),
            requests: Vec::new(),
        }
    }

    /// Number of streams created so far (also the next stream id).
    pub fn stream_count(&self) -> (r: u64)
        ensures
            r == self.streams@.len(),
    {
        self.streams.len() as u64
    }

    /// Append a validated stream, minting its receipt for the record's
    /// receipt owner and an empty delegation slot.
    pub(crate) fn push_stream(&mut self, stream: Stream, now: u64) -> (id: u64)
        requires
            old(self).wf(),
            stream.valid(),
        ensures
            final(self).wf(),
            id == old(self).streams@.len(),
            final(self).streams@.len() == old(self).streams@.len() + 1,
            (forall|j: int|
                0 <= j < old(self).streams@.len() ==> final(self).streams@[j] == #[trigger] old(
                    self,
                ).streams@[j]),
            final(self).streams@[id as int] == stream,
            final(self).receipts@ == old(self).receipts@.push(
                StreamReceipt { stream_id: id, owner: stream.receipt_owner, minted_at: now },
            ),
            final(self).delegates@ == old(self).delegates@.push(None),
            old(self).same_registries(*final(self)),
    {
        let id = self.streams.len() as u64;
        let owner = stream.receipt_owner;
        self.streams.push(stream);
        self.receipts.push(StreamReceipt { stream_id: id, owner, minted_at: now });
        self.delegates.push(None);
        id
    }

    /// Whether `vault` is on the approved custody list.
    pub fn is_vault_approved(&self, vault: u64) -> (r: bool)
        ensures
            r == self.approved_vaults@.contains(vault),
    {
        let mut i: usize = 0;
        while i < self.approved_vaults.len()
            invariant
                0 <= i <= self.approved_vaults@.len(),
                forall|k: int| 0 <= k < i ==> self.approved_vaults@[k] != vault,
            decreases self.approved_vaults@.len() - i,
        {
            if self.approved_vaults[i] == vault {
                return true;
            }
            i = i + 1;
        }
        false
    }

    /// Add `vault` to the approved custody list. The host's authorization
    /// collaborator attests the caller's administrator capability through
    /// `caller_is_admin`.
    pub fn approve_vault(&mut self, caller_is_admin: bool, vault: u64) -> (r: Result<(), Error>)
        requires
            old(self).wf(),
        ensures
            final(self).wf(),
            ({
                if !caller_is_admin {
                    r == Err::<(), Error>(Error::Unauthorized) && *final(self) == *old(self)
                } else {
                    r == Ok::<(), Error>(()) && final(self).approved_vaults@ == old(
                        self,
                    ).approved_vaults@.push(vault) && final(self).streams@ == old(self).streams@
                        && final(self).receipts@ == old(self).receipts@ && final(self).delegates@
                        == old(self).delegates@ && final(self).proposals@ == old(self).proposals@
                        && final(self).requests@ == old(self).requests@
                }
            }),
    {
        if !caller_is_admin {
            return Err(Error::Unauthorized);
        }
        self.approved_vaults.push(vault);
        Ok(())
    }

    /// Remove every listing of `vault` from the approved custody list.
    pub fn revoke_vault(&mut self, caller_is_admin: bool, vault: u64) -> (r: Result<(), Error>)
        requires
            old(self).wf(),
        ensures
            final(self).wf(),
            ({
                if !caller_is_admin {
                    r == Err::<(), Error>(Error::Unauthorized) && *final(self) == *old(self)
                } else {
                    &&& r == Ok::<(), Error>(())
                    &&& final(self).approved_vaults@ == old(self).approved_vaults@.filter(
                        (|v: u64| v != vault),
                    )
                    &&& final(self).streams@ == old(self).streams@
                    &&& final(self).receipts@ == old(self).receipts@
                    &&& final(self).delegates@ == old(self).delegates@
                    &&& final(self).proposals@ == old(self).proposals@
                    &&& final(self).requests@ == old(self).requests@
                }
            }),
    {
        if !caller_is_admin {
            return Err(Error::Unauthorized);
        }
        let ghost orig = self.approved_vaults@;
        let mut kept: Vec<u64> = Vec::new();
        let mut i: usize = 0;
        proof {
            assert(orig.take(0int).filter(|v: u64| v != vault) =~= Seq::<u64>::empty());
        }
        while i < self.approved_vaults.len()
            invariant
                0 <= i <= orig.len(),
                orig == self.approved_vaults@,
                kept@ == orig.take(i as int).filter(|v: u64| v != vault),
            decreases orig.len() - i,
        {
            let v = self.approved_vaults[i];
            proof {
                assert(orig.take(i + 1int).drop_last() =~= orig.take(i as int));
                assert(orig.take(i + 1int).last() == v);
                reveal(Seq::filter);
            }
            if v != vault {
                kept.push(v);
            }
            i = i + 1;
        }
        proof {
            assert(orig.take(orig.len() as int) =~= orig);
        }
        self.approved_vaults = kept;
        Ok(())
    }

    /// Create a token-denominated stream on the default settings: no
    /// milestones and no vault.
    pub fn create_stream(
        &mut self,
        sender: u64,
        receiver: u64,
        token: u64,
        total_amount: i128,
        start_time: u64,
        end_time: u64,
        curve_type: CurveType,
        is_soulbound: bool,
        now: u64,
    ) -> (r: Result<u64, Error>)
        requires
            old(self).wf(),
        ensures
            final(self).wf(),
            r is Err ==> *final(self) == *old(self),
            ({
                let n = old(self).streams@.len() as int;
                if start_time >= end_time {
                    r == Err::<u64, Error>(Error::InvalidTimeRange)
                } else if total_amount <= 0 || !amount_bounds_ok(
                    total_amount as int,
                    start_time as int,
                    end_time as int,
                ) {
                    r == Err::<u64, Error>(Error::InvalidAmount)
                } else {
                    r == Ok::<u64, Error>(n as u64) && final(self).streams@.len() == n + 1
                        && created_stream(
                        final(self).streams@[n],
                        sender,
                        receiver,
                        token,
                        total_amount,
                        start_time,
                        end_time,
                        None,
                        Seq::<Milestone>::empty(),
                        curve_type,
                        0,
                        None,
                        None,
                        None,
                        is_soulbound,
                    ) && (forall|j: int|
                        0 <= j < n ==> final(self).streams@[j] == #[trigger] old(self).streams@[j])
                        && final(self).receipts@ == old(self).receipts@.push(
                        StreamReceipt { stream_id: n as u64, owner: receiver, minted_at: now },
                    ) && final(self).delegates@ == old(self).delegates@.push(None) && old(
                        self,
                    ).same_registries(*final(self))
                }
            }),
    {
        let milestones: Vec<Milestone> = Vec::new();
        self.create_stream_with_milestones(
            sender,
            receiver,
            token,
            total_amount,
            start_time,
            end_time,
            milestones,
            curve_type,
            is_soulbound,
            None,
            now,
        )
    }

    /// Create a token-denominated stream with milestone caps and optional
    /// approved-vault custody. Rejected before any write when the time
    /// range is inverted, the amount is non-positive or too large for the
    /// settlement arithmetic, a milestone is out of shape, or the vault is
    /// not approved.
    #[verifier::rlimit(60)]
    pub fn create_stream_with_milestones(
        &mut self,
        sender: u64,
        receiver: u64,
        token: u64,
        total_amount: i128,
        start_time: u64,
        end_time: u64,
        milestones: Vec<Milestone>,
        curve_type: CurveType,
        is_soulbound: bool,
        vault_address: Option<u64>,
        now: u64,
    ) -> (r: Result<u64, Error>)
        requires
            old(self).wf(),
        ensures
            final(self).wf(),
            r is Err ==> *final(self) == *old(self),
            ({
                let n = old(self).streams@.len() as int;
                if start_time >= end_time {
                    r == Err::<u64, Error>(Error::InvalidTimeRange)
                } else if total_amount <= 0 || !amount_bounds_ok(
                    total_amount as int,
                    start_time as int,
                    end_time as int,
                ) || !milestones_ok(milestones@) {
                    r == Err::<u64, Error>(Error::InvalidAmount)
                } else if (match vault_address {
                    Some(v) => !old(self).approved_vaults@.contains(v),
                    None => false,
                }) {
                    r == Err::<u64, Error>(Error::Unauthorized)
                } else {
                    r == Ok::<u64, Error>(n as u64) && final(self).streams@.len() == n + 1
                        && created_stream(
                        final(self).streams@[n],
                        sender,
                        receiver,
                        token,
                        total_amount,
                        start_time,
                        end_time,
                        None,
                        milestones@,
                        curve_type,
                        0,
                        vault_address,
                        None,
                        None,
                        is_soulbound,
                    ) && (forall|j: int|
                        0 <= j < n ==> final(self).streams@[j] == #[trigger] old(self).streams@[j])
                        && final(self).receipts@ == old(self).receipts@.push(
                        StreamReceipt { stream_id: n as u64, owner: receiver, minted_at: now },
                    ) && final(self).delegates@ == old(self).delegates@.push(None) && old(
                        self,
                    ).same_registries(*final(self))
                }
            }),
    {
        if start_time >= end_time {
            return Err(Error::InvalidTimeRange);
        }
        if total_amount <= 0 {
            return Err(Error::InvalidAmount);
        }
        proof {
            lemma_le_div_iff_mul_le(total_amount as int, i128::MAX as int, 10000);
        }
        if total_amount > i128::MAX / 10000 {
            return Err(Error::InvalidAmount);
        }
        let duration = (end_time - start_time) as i128;
        proof {
            lemma_le_div_iff_mul_le(total_amount as int, i128::MAX as int, duration as int);
        }
        if total_amount > i128::MAX / duration {
            return Err(Error::InvalidAmount);
        }
        if !check_milestones(&milestones) {
            return Err(Error::InvalidAmount);
        }
        match vault_address {
            Some(v) => {
                if !self.is_vault_approved(v) {
                    return Err(Error::Unauthorized);
                }
            },
            None => {},
        }
        let stream = Stream {
            sender,
            receiver,
            token,
            total_amount,
            start_time,
            end_time,
            cliff_time: None,
            withdrawn_amount: 0,
            cancelled: false,
            receipt_owner: receiver,
            is_paused: false,
            paused_time: 0,
            total_paused_duration: 0,
            milestones,
            curve_type,
            interest_strategy: 0,
            vault_address,
            deposited_principal: total_amount,
            vault_shares: 0,
            metadata: None,
            usd_peg: None,
            is_soulbound,
            clawback_enabled: false,
            arbiter: None,
            is_frozen: false,
        };
        Ok(self.push_stream(stream, now))
    }

    /// Create a stream from a contributor-style request: a cliff, an
    /// interest strategy and optional vault custody in one set of
    /// parameters.
    pub fn create_stream_from_request(
        &mut self,
        sender: u64,
        token: u64,
        request: crate::types::StreamRequest,
        now: u64,
    ) -> (r: Result<u64, Error>)
        requires
            old(self).wf(),
        ensures
            final(self).wf(),
            r is Err ==> *final(self) == *old(self),
            ({
                let n = old(self).streams@.len() as int;
                if request.start_time >= request.end_time || !(request.start_time
                    <= request.cliff_time < request.end_time) {
                    r == Err::<u64, Error>(Error::InvalidTimeRange)
                } else if request.amount <= 0 || !amount_bounds_ok(
                    request.amount as int,
                    request.start_time as int,
                    request.end_time as int,
                ) {
                    r == Err::<u64, Error>(Error::InvalidAmount)
                } else if request.interest_strategy > 7 {
                    r == Err::<u64, Error>(Error::InvalidInterestStrategy)
                } else if (match request.vault_address {
                    Some(v) => !old(self).approved_vaults@.contains(v),
                    None => false,
                }) {
                    r == Err::<u64, Error>(Error::Unauthorized)
                } else {
                    r == Ok::<u64, Error>(n as u64) && final(self).streams@.len() == n + 1
                        && created_stream(
                        final(self).streams@[n],
                        sender,
                        request.receiver,
                        token,
                        request.amount,
                        request.start_time,
                        request.end_time,
                        Some(request.cliff_time),
                        Seq::<Milestone>::empty(),
                        CurveType::Linear,
                        request.interest_strategy,
                        request.vault_address,
                        request.metadata,
                        None,
                        false,
                    ) && (forall|j: int|
                        0 <= j < n ==> final(self).streams@[j] == #[trigger] old(self).streams@[j])
                        && final(self).receipts@ == old(self).receipts@.push(
                        StreamReceipt {
                            stream_id: n as u64,
                            owner: request.receiver,
                            minted_at: now,
                        },
                    ) && final(self).delegates@ == old(self).delegates@.push(None) && old(
                        self,
                    ).same_registries(*final(self))
                }
            }),
    {
        if request.start_time >= request.end_time || request.cliff_time < request.start_time
            || request.cliff_time >= request.end_time {
            return Err(Error::InvalidTimeRange);
        }
        if request.amount <= 0 {
            return Err(Error::InvalidAmount);
        }
        proof {
            lemma_le_div_iff_mul_le(request.amount as int, i128::MAX as int, 10000);
        }
        if request.amount > i128::MAX / 10000 {
            return Err(Error::InvalidAmount);
        }
        let duration = (request.end_time - request.start_time) as i128;
        proof {
            lemma_le_div_iff_mul_le(request.amount as int, i128::MAX as int, duration as int);
        }
        if request.amount > i128::MAX / duration {
            return Err(Error::InvalidAmount);
        }
        if request.interest_strategy > 7 {
            return Err(Error::InvalidInterestStrategy);
        }
        match request.vault_address {
            Some(v) => {
                if !self.is_vault_approved(v) {
                    return Err(Error::Unauthorized);
                }
            },
            None => {},
        }
        let milestones: Vec<Milestone> = Vec::new();
        let stream = Stream {
            sender,
            receiver: request.receiver,
            token,
            total_amount: request.amount,
            start_time: request.start_time,
            end_time: request.end_time,
            cliff_time: Some(request.cliff_time),
            withdrawn_amount: 0,
            cancelled: false,
            receipt_owner: request.receiver,
            is_paused: false,
            paused_time: 0,
            total_paused_duration: 0,
            milestones,
            curve_type: CurveType::Linear,
            interest_strategy: request.interest_strategy,
            vault_address: request.vault_address,
            deposited_principal: request.amount,
            vault_shares: 0,
            metadata: request.metadata,
            usd_peg: None,
            is_soulbound: false,
            clawback_enabled: false,
            arbiter: None,
            is_frozen: false,
        };
        Ok(self.push_stream(stream, now))
    }

    /// Create a USD-value-pegged stream: the deposit is the token value of
    /// `usd_amount` at the quote the host fetched at creation, and every
    /// later withdrawal reprices against a fresh quote. A missing or
    /// unusable quote fails with `OracleFailed`; an out-of-bounds price
    /// with `PriceOutOfBounds`.
    pub fn create_usd_pegged_stream(
        &mut self,
        sender: u64,
        receiver: u64,
        token: u64,
        usd_amount: i128,
        start_time: u64,
        end_time: u64,
        oracle_address: u64,
        max_staleness: u64,
        min_price: i128,
        max_price: i128,
        quote: Option<PriceQuote>,
        now: u64,
    ) -> (r: Result<u64, Error>)
        requires
            old(self).wf(),
        ensures
            final(self).wf(),
            r is Err ==> *final(self) == *old(self),
            ({
                let n = old(self).streams@.len() as int;
                let initial = (match quote {
                    Some(q) => usd_to_tokens(usd_amount as int, q.price as int),
                    None => 0int,
                });
                if start_time >= end_time {
                    r == Err::<u64, Error>(Error::InvalidTimeRange)
                } else if usd_amount <= 0 {
                    r == Err::<u64, Error>(Error::InvalidAmount)
                } else if (match quote {
                    Some(q) => !quote_acceptable(q, now as int, max_staleness as int),
                    None => true,
                }) {
                    r == Err::<u64, Error>(Error::OracleFailed)
                } else if (match quote {
                    Some(q) => q.price < min_price || q.price > max_price,
                    None => true,
                }) {
                    r == Err::<u64, Error>(Error::PriceOutOfBounds)
                } else if usd_amount * 10000000 > i128::MAX || initial <= 0 || !amount_bounds_ok(
                    initial,
                    start_time as int,
                    end_time as int,
                ) || usd_amount * ((end_time - start_time) as int) > i128::MAX {
                    r == Err::<u64, Error>(Error::InvalidAmount)
                } else {
                    r == Ok::<u64, Error>(n as u64) && final(self).streams@.len() == n + 1
                        && created_stream(
                        final(self).streams@[n],
                        sender,
                        receiver,
                        token,
                        initial as i128,
                        start_time,
                        end_time,
                        None,
                        Seq::<Milestone>::empty(),
                        CurveType::Linear,
                        0,
                        None,
                        None,
                        Some(
                            UsdPegConfig {
                                usd_amount,
                                min_price,
                                max_price,
                                oracle: PriceOracle { oracle_address, max_staleness },
                            },
                        ),
                        false,
                    ) && (forall|j: int|
                        0 <= j < n ==> final(self).streams@[j] == #[trigger] old(self).streams@[j])
                        && final(self).receipts@ == old(self).receipts@.push(
                        StreamReceipt { stream_id: n as u64, owner: receiver, minted_at: now },
                    ) && final(self).delegates@ == old(self).delegates@.push(None) && old(
                        self,
                    ).same_registries(*final(self))
                }
            }),
    {
        if start_time >= end_time {
            return Err(Error::InvalidTimeRange);
        }
        if usd_amount <= 0 {
            return Err(Error::InvalidAmount);
        }
        let q = match quote {
            Some(q) => q,
            None => {
                return Err(Error::OracleFailed);
            },
        };
        if !validate_quote(q, now, max_staleness) {
            return Err(Error::OracleFailed);
        }
        if q.price < min_price || q.price > max_price {
            return Err(Error::PriceOutOfBounds);
        }
        let initial = match calculate_token_amount(usd_amount, q.price) {
            Ok(v) => v,
            Err(_) => {
                return Err(Error::InvalidAmount);
            },
        };
        proof {
            crate::oracle::lemma_usd_to_tokens_bounds(usd_amount as int, q.price as int);
        }
        if initial <= 0 {
            return Err(Error::InvalidAmount);
        }
        proof {
            lemma_le_div_iff_mul_le(initial as int, i128::MAX as int, 10000);
        }
        if initial > i128::MAX / 10000 {
            return Err(Error::InvalidAmount);
        }
        let duration = (end_time - start_time) as i128;
        proof {
            lemma_le_div_iff_mul_le(initial as int, i128::MAX as int, duration as int);
            lemma_le_div_iff_mul_le(usd_amount as int, i128::MAX as int, duration as int);
        }
        if initial > i128::MAX / duration {
            return Err(Error::InvalidAmount);
        }
        if usd_amount > i128::MAX / duration {
            return Err(Error::InvalidAmount);
        }
        let milestones: Vec<Milestone> = Vec::new();
        let stream = Stream {
            sender,
            receiver,
            token,
            total_amount: initial,
            start_time,
            end_time,
            cliff_time: None,
            withdrawn_amount: 0,
            cancelled: false,
            receipt_owner: receiver,
            is_paused: false,
            paused_time: 0,
            total_paused_duration: 0,
            milestones,
            curve_type: CurveType::Linear,
            interest_strategy: 0,
            vault_address: None,
            deposited_principal: initial,
            vault_shares: 0,
            metadata: None,
            usd_peg: Some(
                UsdPegConfig {
                    usd_amount,
                    min_price,
                    max_price,
                    oracle: PriceOracle { oracle_address, max_staleness },
                },
            ),
            is_soulbound: false,
            clawback_enabled: false,
            arbiter: None,
            is_frozen: false,
        };
        Ok(self.push_stream(stream, now))
    }

    /// Record the shares the vault issued for this stream's deposit; set
    /// once, right after creation.
    pub fn record_vault_deposit(&mut self, stream_id: u64, shares: i128) -> (r: Result<(), Error>)
        requires
            old(self).wf(),
        ensures
            final(self).wf(),
            r is Err ==> *final(self) == *old(self),
            ({
                let n = old(self).streams@.len();
                if stream_id >= n {
                    r == Err::<(), Error>(Error::StreamNotFound)
                } else {
                    let s = old(self).streams@[stream_id as int];
                    if s.vault_address is None || shares <= 0 {
                        r == Err::<(), Error>(Error::InvalidAmount)
                    } else if s.vault_shares != 0 {
                        r == Err::<(), Error>(Error::AlreadyInitialized)
                    } else if shares * s.total_amount > i128::MAX {
                        r == Err::<(), Error>(Error::InvalidAmount)
                    } else {
                        r == Ok::<(), Error>(()) && old(self).only_stream_changed(
                            *final(self),
                            stream_id as int,
                        ) && final(self).streams@[stream_id as int] == (Stream {
                            vault_shares: shares,
                            ..s
                        })
                    }
                }
            }),
    {
        if stream_id >= self.streams.len() as u64 {
            return Err(Error::StreamNotFound);
        }
        let i = stream_id as usize;
        let has_vault = match self.streams[i].vault_address {
            Some(_) => true,
            None => false,
        };
        if !has_vault || shares <= 0 {
            return Err(Error::InvalidAmount);
        }
        if self.streams[i].vault_shares != 0 {
            return Err(Error::AlreadyInitialized);
        }
        let total = self.streams[i].total_amount;
        proof {
            lemma_le_div_iff_mul_le(shares as int, i128::MAX as int, total as int);
        }
        if shares > i128::MAX / total {
            return Err(Error::InvalidAmount);
        }
        let s = entry_mut(&mut self.streams, i);
        s.vault_shares = shares;
        Ok(())
    }

    /// Vault shares currently held for a stream; 0 for an unknown id.
    pub fn get_vault_shares(&self, stream_id: u64) -> (r: i128)
        ensures
            r == if stream_id < self.streams@.len() {
                self.streams@[stream_id as int].vault_shares
            } else {
                0
            },
    {
        if stream_id >= self.streams.len() as u64 {
            return 0;
        }
        self.streams[stream_id as usize].vault_shares
    }

    /// Read a stream record.
    pub fn get_stream(&self, stream_id: u64) -> (r: Result<&Stream, Error>)
        ensures
            stream_id < self.streams@.len() ==> (r matches Ok(s) && *s == self.streams@[stream_id
                as int]),
            stream_id >= self.streams@.len() ==> r == Err::<&Stream, Error>(Error::StreamNotFound),
    {
        if stream_id >= self.streams.len() as u64 {
            return Err(Error::StreamNotFound);
        }
        Ok(&self.streams[stream_id as usize])
    }

    /// Read a stream's receipt.
    pub fn get_receipt(&self, stream_id: u64) -> (r: Result<StreamReceipt, Error>)
        ensures
            stream_id < self.receipts@.len() ==> r == Ok::<StreamReceipt, Error>(
                self.receipts@[stream_id as int],
            ),
            stream_id >= self.receipts@.len() ==> r == Err::<StreamReceipt, Error>(
                Error::StreamNotFound,
            ),
    {
        if stream_id >= self.receipts.len() as u64 {
            return Err(Error::StreamNotFound);
        }
        Ok(self.receipts[stream_id as usize])
    }

    /// Balance snapshot for receipt display: locked versus unlocked versus
    /// already withdrawn, at `now`.
    pub fn get_receipt_metadata(&self, stream_id: u64, now: u64) -> (r: Result<
        ReceiptMetadata,
        Error,
    >)
        requires
            self.wf(),
        ensures
            stream_id >= self.streams@.len() ==> r == Err::<ReceiptMetadata, Error>(
                Error::StreamNotFound,
            ),
            stream_id < self.streams@.len() ==> ({
                let s = self.streams@[stream_id as int];
                r == Ok::<ReceiptMetadata, Error>(
                    ReceiptMetadata {
                        stream_id,
                        locked_balance: (s.total_amount - s.unlocked(now as int)) as i128,
                        unlocked_balance: (s.unlocked(now as int) - s.withdrawn_amount) as i128,
                        total_amount: s.total_amount,
                        token: s.token,
                    },
                )
            }),
    {
        if stream_id >= self.streams.len() as u64 {
            return Err(Error::StreamNotFound);
        }
        let s = &self.streams[stream_id as usize];
        let unlocked = s.unlocked_amount(now);
        proof {
            lemma_stream_unlocked_bounds(*s, now as int);
        }
        Ok(
            ReceiptMetadata {
                stream_id,
                locked_balance: s.total_amount - unlocked,
                unlocked_balance: unlocked - s.withdrawn_amount,
                total_amount: s.total_amount,
                token: s.token,
            },
        )
    }
}

/// Whether every milestone percentage is within bounds and the list is
/// ordered.
#[verifier::rlimit(60)]
fn check_milestones(milestones: &Vec<Milestone>) -> (r: bool)
    ensures
        r == milestones_ok(milestones@),
{
    let n = milestones.len();
    let mut i: usize = 0;
    while i < n
        invariant
            0 <= i <= n,
            n == milestones@.len(),
            forall|k: int| 0 <= k < i ==> (#[trigger] milestones@[k]).percentage <= 100,
            forall|k: int|
                0 <= k < i - 1 ==> (#[trigger] milestones@[k]).timestamp <= milestones@[k
                    + 1].timestamp && milestones@[k].percentage <= milestones@[k + 1].percentage,
        decreases n - i,
    {
        if milestones[i].percentage > 100 {
            return false;
        }
        if i > 0 {
            let prev = milestones[i - 1];
            let cur = milestones[i];
            if prev.timestamp > cur.timestamp || prev.percentage > cur.percentage {
                return false;
            }
        }
        i = i + 1;
    }
    true
}

} // verus!
