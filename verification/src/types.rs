//! Data model: stream records, receipts, proposals, requests and errors.
//!
//! Parties (sender, receiver, arbiter, token contracts, vaults, oracles) are
//! identified by plain numeric ids; the host layer owns the mapping between
//! those ids and its own address representation. Every optional aspect of a
//! stream (vault, arbiter, cliff, USD peg, metadata) is a true option type,
//! so "no vault" is structurally distinct from any vault id.

use vstd::prelude::*;

verus! {

/// Interest strategy bit: all interest to the sender.
pub const INTEREST_TO_SENDER: u32 = 0b001;

/// Interest strategy bit: all interest to the receiver.
pub const INTEREST_TO_RECEIVER: u32 = 0b010;

/// Interest strategy bit: all interest to the protocol treasury.
pub const INTEREST_TO_PROTOCOL: u32 = 0b100;

/// Interest strategy: 50/50 split between sender and receiver.
pub const INTEREST_SPLIT_SENDER_RECEIVER: u32 = 0b011;

/// Interest strategy: three-way split among sender, receiver and protocol.
pub const INTEREST_SPLIT_ALL: u32 = 0b111;

/// Shape of the unlock curve over time.
#[derive(Clone, Copy, Debug, PartialEq, Eq, Structural)]
pub enum CurveType {
    /// Unlocks proportionally to elapsed time.
    Linear,
    /// Unlocks proportionally to the square of elapsed time.
    Exponential,
}

/// Typed failure of an operation. Every error is raised before any state
/// change: a rejected operation leaves the store exactly as it was.
#[derive(Clone, Copy, Debug, PartialEq, Eq, Structural)]
pub enum Error {
    /// The contract-level entity was already initialized.
    AlreadyInitialized,
    /// `start_time` is not strictly before `end_time`, or a computed end
    /// time cannot be represented.
    InvalidTimeRange,
    /// A non-positive amount, or one too large for the settlement
    /// arithmetic to stay within `i128`.
    InvalidAmount,
    /// No stream or receipt exists under the given id.
    StreamNotFound,
    /// The caller does not hold the capability the operation demands.
    Unauthorized,
    /// The stream already reached its terminal cancelled state.
    AlreadyCancelled,
    /// Nothing is withdrawable at this time.
    InsufficientBalance,
    /// No proposal exists under the given id.
    ProposalNotFound,
    /// The proposal deadline has passed.
    ProposalExpired,
    /// The approver already approved this proposal.
    AlreadyApproved,
    /// The proposal was already executed.
    ProposalAlreadyExecuted,
    /// A proposal needs a positive approval threshold.
    InvalidApprovalThreshold,
    /// The caller does not own the stream's receipt.
    NotReceiptOwner,
    /// The stream is paused; withdrawal is rejected.
    StreamPaused,
    /// The oracle quote is stale, missing or non-positive.
    OracleStalePrice,
    /// No usable oracle quote was available at stream creation.
    OracleFailed,
    /// The oracle price lies outside the stream's configured bounds.
    PriceOutOfBounds,
    /// A contributor request was already executed.
    AlreadyExecuted,
    /// The stream is soulbound: its receiver can never be reassigned.
    StreamIsSoulbound,
    /// The stream has ended; top-ups are no longer accepted.
    StreamEnded,
    /// The stream is frozen pending dispute resolution.
    StreamFrozen,
    /// The interest strategy mask has bits outside the three defined ones.
    InvalidInterestStrategy,
}

/// A (timestamp, cumulative percentage) cap on the curve-computed unlock.
/// A milestone is never an accelerant: it can only hold the unlock back.
#[derive(Clone, Copy, Debug, PartialEq, Eq, Structural)]
pub struct Milestone {
    /// Time from which this cap level applies.
    pub timestamp: u64,
    /// Cumulative percentage of the total unlocked from `timestamp` on.
    pub percentage: u32,
}

/// Reference to a price oracle together with the maximum accepted age of
/// its quotes.
#[derive(Clone, Copy, Debug, PartialEq, Eq, Structural)]
pub struct PriceOracle {
    /// Id of the oracle the host queries for prices.
    pub oracle_address: u64,
    /// Maximum age of a quote, in seconds, before it counts as stale.
    pub max_staleness: u64,
}

/// Parameters of a USD-value-pegged stream. The unlock curve runs in USD
/// units; only the final transfer amount is converted to tokens.
#[derive(Clone, Copy, Debug, PartialEq, Eq, Structural)]
pub struct UsdPegConfig {
    /// USD amount in 7 decimals (e.g. 5_000_000_000 = $500).
    pub usd_amount: i128,
    /// Lowest acceptable price (slippage protection).
    pub min_price: i128,
    /// Highest acceptable price (slippage protection).
    pub max_price: i128,
    /// The oracle that prices the settlement token.
    pub oracle: PriceOracle,
}

/// A price observation the host fetched from an oracle.
#[derive(Clone, Copy, Debug, PartialEq, Eq, Structural)]
pub struct PriceQuote {
    /// Token price in USD with 7 decimals.
    pub price: i128,
    /// Time the oracle produced this price.
    pub as_of: u64,
}

/// A vesting stream record. Created by an atomic funding transfer, mutated
/// by withdraw / pause / top-up / freeze / resolve / clawback / cancel, and
/// never deleted: `cancelled` is its logical end of life.
#[derive(Clone, Debug)]
pub struct Stream {
    /// Party that funded the stream.
    pub sender: u64,
    /// Vesting beneficiary (reassignable unless soulbound).
    pub receiver: u64,
    /// Settlement token id.
    pub token: u64,
    /// Total deposit the curve unlocks, in token units.
    pub total_amount: i128,
    /// Time the unlock curve starts.
    pub start_time: u64,
    /// Time the whole total is unlocked.
    pub end_time: u64,
    /// Optional time before which nothing unlocks.
    pub cliff_time: Option<u64>,
    /// Amount already withdrawn; monotonic while the stream is live.
    pub withdrawn_amount: i128,
    /// Terminal flag: once set, only reads are allowed.
    pub cancelled: bool,
    /// Current owner of the withdrawal claim (receipt).
    pub receipt_owner: u64,
    /// Whether unlocking is currently suspended.
    pub is_paused: bool,
    /// Time of the current pause; 0 while not paused.
    pub paused_time: u64,
    /// Total time spent paused over the stream's life.
    pub total_paused_duration: u64,
    /// Ordered percentage caps on the unlock curve.
    pub milestones: Vec<Milestone>,
    /// Shape of the unlock curve.
    pub curve_type: CurveType,
    /// 3-bit mask choosing who receives vault interest.
    pub interest_strategy: u32,
    /// Yield vault custody of the deposit, if any.
    pub vault_address: Option<u64>,
    /// Principal placed under vault custody.
    pub deposited_principal: i128,
    /// Vault shares currently held for this stream.
    pub vault_shares: i128,
    /// Opaque metadata handle, if any.
    pub metadata: Option<u64>,
    /// USD-peg parameters; `None` for token-denominated streams.
    pub usd_peg: Option<UsdPegConfig>,
    /// Write-once flag permanently binding the stream to its receiver.
    pub is_soulbound: bool,
    /// Whether a compliance issuer may claw the asset back.
    pub clawback_enabled: bool,
    /// Party entitled to freeze the stream and resolve disputes.
    pub arbiter: Option<u64>,
    /// Dispute hold: withdrawals are rejected while set.
    pub is_frozen: bool,
}

/// Transferable claim right to withdraw from and cancel a stream,
/// separable from the nominal receiver. At most one per stream.
#[derive(Clone, Copy, Debug, PartialEq, Eq, Structural)]
pub struct StreamReceipt {
    /// The stream this receipt belongs to.
    pub stream_id: u64,
    /// Current owner of the claim.
    pub owner: u64,
    /// Time the receipt was minted.
    pub minted_at: u64,
}

/// Snapshot of a stream's balances for receipt display.
#[derive(Clone, Copy, Debug, PartialEq, Eq, Structural)]
pub struct ReceiptMetadata {
    /// The stream described.
    pub stream_id: u64,
    /// Part of the total the curve has not yet unlocked.
    pub locked_balance: i128,
    /// Unlocked part not yet withdrawn.
    pub unlocked_balance: i128,
    /// The stream's total deposit.
    pub total_amount: i128,
    /// Settlement token id.
    pub token: u64,
}

/// How a vault-reported gain is split among the three parties.
#[derive(Clone, Copy, Debug, PartialEq, Eq, Structural)]
pub struct InterestDistribution {
    /// Share owed to the sender.
    pub to_sender: i128,
    /// Share owed to the receiver.
    pub to_receiver: i128,
    /// Share owed to the protocol treasury.
    pub to_protocol: i128,
    /// The gain being distributed (never negative).
    pub total_interest: i128,
}

/// A multisig proposal to create a stream. Executes at most once, when the
/// unique approver set reaches the required threshold before the deadline.
#[derive(Clone, Debug)]
pub struct StreamProposal {
    /// Party that will fund the stream.
    pub sender: u64,
    /// Vesting beneficiary of the proposed stream.
    pub receiver: u64,
    /// Settlement token id.
    pub token: u64,
    /// Deposit of the proposed stream.
    pub total_amount: i128,
    /// Proposed unlock start.
    pub start_time: u64,
    /// Proposed unlock end.
    pub end_time: u64,
    /// Parties that approved so far; free of duplicates.
    pub approvers: Vec<u64>,
    /// Number of approvals that triggers execution.
    pub required_approvals: u32,
    /// Last time an approval is accepted.
    pub deadline: u64,
    /// Whether the proposal already created its stream; flips exactly once.
    pub executed: bool,
}

/// Creation parameters for a stream with a cliff, an interest strategy and
/// optional vault custody.
#[derive(Clone, Copy, Debug, PartialEq, Eq, Structural)]
pub struct StreamRequest {
    /// Vesting beneficiary.
    pub receiver: u64,
    /// Deposit to stream.
    pub amount: i128,
    /// Unlock start.
    pub start_time: u64,
    /// Time before which nothing unlocks.
    pub cliff_time: u64,
    /// Unlock end.
    pub end_time: u64,
    /// 3-bit interest distribution mask.
    pub interest_strategy: u32,
    /// Vault to place the deposit under, if any.
    pub vault_address: Option<u64>,
    /// Opaque metadata handle, if any.
    pub metadata: Option<u64>,
}

/// Review state of a contributor payment request.
#[derive(Clone, Copy, Debug, PartialEq, Eq, Structural)]
pub enum RequestStatus {
    /// Awaiting an administrator's decision.
    Pending,
    /// Approved and turned into a stream.
    Approved,
    /// Declined.
    Rejected,
}

/// A contributor's request to be paid through a stream; an administrator
/// executes it, which creates the stream.
#[derive(Clone, Copy, Debug, PartialEq, Eq, Structural)]
pub struct ContributorRequest {
    /// Id of this request.
    pub id: u64,
    /// The contributor to pay.
    pub receiver: u64,
    /// Settlement token id.
    pub token: u64,
    /// Amount to stream.
    pub total_amount: i128,
    /// Length of the vesting period.
    pub duration: u64,
    /// Time the request was filed; the stream vests from here.
    pub start_time: u64,
    /// Review state; `Pending` until executed.
    pub status: RequestStatus,
    /// Opaque metadata handle, if any.
    pub metadata: Option<u64>,
}

/// What a successful withdrawal obliges the host to do: pay `amount` to the
/// receipt owner, redeeming `shares_redeemed` vault shares first if the
/// stream is vaulted.
#[derive(Clone, Copy, Debug, PartialEq, Eq, Structural)]
pub struct WithdrawOutcome {
    /// Tokens to transfer to the receipt owner.
    pub amount: i128,
    /// Vault shares to redeem in the same atomic step.
    pub shares_redeemed: i128,
}

/// How a cancellation or dispute resolution splits the remaining balance.
#[derive(Clone, Copy, Debug, PartialEq, Eq, Structural)]
pub struct CancelSettlement {
    /// Tokens owed to the receipt owner.
    pub to_receiver: i128,
    /// Tokens returned to the sender.
    pub to_sender: i128,
    /// Vault shares to redeem in the same atomic step.
    pub shares_redeemed: i128,
}

impl Stream {
    /// Spec view of the cliff: the time before which nothing unlocks.
    pub open spec fn spec_cliff(self) -> int {
        match self.cliff_time {
            Some(c) => c as int,
            None => self.start_time as int,
        }
    }

    /// Well-formedness of a stream record. Constructors establish it and
    /// every transition preserves it; beyond the shape the specification
    /// demands (time range, cliff placement, milestone ordering and bounds,
    /// withdrawn within bounds), it keeps every product the settlement
    /// arithmetic forms within `i128`.
    pub open spec fn valid(self) -> bool {
        &&& self.start_time < self.end_time
        &&& self.total_amount > 0
        &&& self.total_amount * 10000 <= i128::MAX
        &&& self.total_amount * ((self.end_time - self.start_time) as int) <= i128::MAX
        &&& 0 <= self.withdrawn_amount
        &&& (self.usd_peg is None ==> self.withdrawn_amount <= self.total_amount)
        &&& (match self.cliff_time {
            Some(c) => self.start_time <= c < self.end_time,
            None => true,
        })
        &&& (!self.is_paused ==> self.paused_time == 0)
        &&& self.end_time + self.total_paused_duration <= u64::MAX
        &&& (forall|i: int|
            0 <= i < self.milestones@.len() ==> (#[trigger] self.milestones@[i]).percentage <= 100)
        &&& (forall|i: int|
            0 <= i < self.milestones@.len() - 1 ==> (#[trigger] self.milestones@[i]).timestamp
                <= self.milestones@[i + 1].timestamp && self.milestones@[i].percentage
                <= self.milestones@[i + 1].percentage)
        &&& self.interest_strategy <= 7
        &&& self.vault_shares >= 0
        &&& self.vault_shares * self.total_amount <= i128::MAX
        &&& self.deposited_principal >= 0
        &&& (self.vault_address is None ==> self.vault_shares == 0)
        &&& (match self.usd_peg {
            Some(cfg) => {
                &&& cfg.usd_amount > 0
                &&& cfg.usd_amount * 10000000 <= i128::MAX
                &&& cfg.usd_amount * ((self.end_time - self.start_time) as int) <= i128::MAX
                &&& self.vault_address is None
                &&& self.total_amount <= cfg.usd_amount * 10000000
                &&& self.withdrawn_amount <= cfg.usd_amount * 10000000
            },
            None => true,
        })
    }
}

} // verus!
