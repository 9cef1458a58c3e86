use stellar_stream::store::StreamStore;
use stellar_stream::types::{CurveType, Error, Milestone, PriceQuote};

const SENDER: u64 = 1;
const RECEIVER: u64 = 2;
const TOKEN: u64 = 3;
const NEW_OWNER: u64 = 4;
const ARBITER: u64 = 5;
const ISSUER: u64 = 6;
const OTHER: u64 = 7;

fn simple_stream(store: &mut StreamStore, now: u64) -> u64 {
    store
        .create_stream(SENDER, RECEIVER, TOKEN, 1000, 100, 200, CurveType::Linear, false, now)
        .unwrap()
}

#[test]
fn test_create_direct_stream() {
    let mut store = StreamStore::new();
    let stream_id = simple_stream(&mut store, 50);
    assert_eq!(stream_id, 0);

    let stream = store.get_stream(stream_id).unwrap();
    assert_eq!(stream.total_amount, 1000);
    assert_eq!(stream.withdrawn_amount, 0);
    assert!(!stream.cancelled);
    assert_eq!(stream.receipt_owner, RECEIVER);

    let receipt = store.get_receipt(stream_id).unwrap();
    assert_eq!(receipt.stream_id, stream_id);
    assert_eq!(receipt.owner, RECEIVER);
}

#[test]
fn test_receipt_transfer() {
    let mut store = StreamStore::new();
    let stream_id = simple_stream(&mut store, 50);

    store.transfer_receipt(stream_id, RECEIVER, NEW_OWNER).unwrap();

    let receipt = store.get_receipt(stream_id).unwrap();
    assert_eq!(receipt.owner, NEW_OWNER);

    let stream = store.get_stream(stream_id).unwrap();
    assert_eq!(stream.receipt_owner, NEW_OWNER);
}

#[test]
fn test_withdraw_with_receipt_owner() {
    let mut store = StreamStore::new();
    let stream_id = simple_stream(&mut store, 150);

    store.transfer_receipt(stream_id, RECEIVER, NEW_OWNER).unwrap();

    let result = store.withdraw(stream_id, RECEIVER, 150, None);
    assert_eq!(result, Err(Error::NotReceiptOwner));

    let withdrawn = store.withdraw(stream_id, NEW_OWNER, 150, None).unwrap();
    assert!(withdrawn.amount > 0);
}

#[test]
fn test_receipt_metadata() {
    let mut store = StreamStore::new();
    let stream_id = simple_stream(&mut store, 150);

    let metadata = store.get_receipt_metadata(stream_id, 150).unwrap();
    assert_eq!(metadata.stream_id, stream_id);
    assert_eq!(metadata.total_amount, 1000);
    assert_eq!(metadata.token, TOKEN);
    assert!(metadata.unlocked_balance > 0);
    assert!(metadata.locked_balance < 1000);
}

#[test]
fn test_pause_unpause_stream() {
    let mut store = StreamStore::new();
    let stream_id = store
        .create_stream(SENDER, RECEIVER, TOKEN, 1000, 100, 300, CurveType::Linear, false, 100)
        .unwrap();

    store.pause_stream(stream_id, SENDER, 150).unwrap();
    let stream = store.get_stream(stream_id).unwrap();
    assert!(stream.is_paused);
    assert_eq!(stream.paused_time, 150);

    store.unpause_stream(stream_id, SENDER, 200).unwrap();
    let stream = store.get_stream(stream_id).unwrap();
    assert!(!stream.is_paused);
    assert_eq!(stream.total_paused_duration, 50);
}

#[test]
fn test_withdraw_paused_fails() {
    let mut store = StreamStore::new();
    let stream_id = store
        .create_stream(SENDER, RECEIVER, TOKEN, 1000, 100, 300, CurveType::Linear, false, 100)
        .unwrap();

    store.pause_stream(stream_id, SENDER, 100).unwrap();

    let result = store.withdraw(stream_id, RECEIVER, 150, None);
    assert_eq!(result, Err(Error::StreamPaused));
}

#[test]
fn test_pause_adjusts_unlocked_balance() {
    let mut store = StreamStore::new();
    let stream_id = store
        .create_stream(SENDER, RECEIVER, TOKEN, 1000, 100, 300, CurveType::Linear, false, 100)
        .unwrap();

    let metadata_before = store.get_receipt_metadata(stream_id, 150).unwrap();
    let unlocked_before = metadata_before.unlocked_balance;

    store.pause_stream(stream_id, SENDER, 150).unwrap();

    // While paused, the unlocked balance stays frozen at the pause moment.
    let metadata_paused = store.get_receipt_metadata(stream_id, 200).unwrap();
    assert_eq!(metadata_paused.unlocked_balance, unlocked_before);

    store.unpause_stream(stream_id, SENDER, 200).unwrap();

    let withdrawn = store.withdraw(stream_id, RECEIVER, 250, None).unwrap();
    assert!(withdrawn.amount > 0);
}

#[test]
fn test_quarterly_vesting() {
    let mut store = StreamStore::new();
    let milestones = vec![
        Milestone { timestamp: 90, percentage: 25 },
        Milestone { timestamp: 180, percentage: 50 },
        Milestone { timestamp: 270, percentage: 75 },
        Milestone { timestamp: 360, percentage: 100 },
    ];
    let stream_id = store
        .create_stream_with_milestones(
            SENDER,
            RECEIVER,
            TOKEN,
            1000,
            0,
            360,
            milestones,
            CurveType::Linear,
            false,
            None,
            0,
        )
        .unwrap();

    let metadata = store.get_receipt_metadata(stream_id, 45).unwrap();
    assert!(metadata.unlocked_balance <= 250);

    let metadata = store.get_receipt_metadata(stream_id, 100).unwrap();
    assert_eq!(metadata.unlocked_balance, 250);

    let metadata = store.get_receipt_metadata(stream_id, 200).unwrap();
    assert_eq!(metadata.unlocked_balance, 500);
}

#[test]
fn test_hybrid_streaming() {
    let mut store = StreamStore::new();
    let milestones = vec![Milestone { timestamp: 100, percentage: 50 }];
    let stream_id = store
        .create_stream_with_milestones(
            SENDER,
            RECEIVER,
            TOKEN,
            1000,
            0,
            200,
            milestones,
            CurveType::Linear,
            false,
            None,
            0,
        )
        .unwrap();

    let metadata = store.get_receipt_metadata(stream_id, 50).unwrap();
    assert!(metadata.unlocked_balance <= 250);

    let metadata = store.get_receipt_metadata(stream_id, 150).unwrap();
    assert_eq!(metadata.unlocked_balance, 500);

    let metadata = store.get_receipt_metadata(stream_id, 200).unwrap();
    assert_eq!(metadata.unlocked_balance, 1000);
}

#[test]
fn test_exponential_stream() {
    let mut store = StreamStore::new();
    let stream_id = store
        .create_stream(SENDER, RECEIVER, TOKEN, 1000, 0, 100, CurveType::Exponential, false, 0)
        .unwrap();

    // At 50% time: ~25% unlocked (0.5^2 = 0.25)
    let metadata = store.get_receipt_metadata(stream_id, 50).unwrap();
    assert!(metadata.unlocked_balance >= 240 && metadata.unlocked_balance <= 260);

    // At 70% time: ~49% unlocked (0.7^2 = 0.49)
    let metadata = store.get_receipt_metadata(stream_id, 70).unwrap();
    assert!(metadata.unlocked_balance >= 480 && metadata.unlocked_balance <= 500);

    // At 100% time: everything unlocked
    let metadata = store.get_receipt_metadata(stream_id, 100).unwrap();
    assert_eq!(metadata.unlocked_balance, 1000);

    let withdrawn = store.withdraw(stream_id, RECEIVER, 100, None).unwrap();
    assert_eq!(withdrawn.amount, 1000);
}

#[test]
fn test_zero_dust_sequential_withdrawals() {
    // total=1000 over [0,3): withdrawals unlock 333, 333, then exactly 334.
    let mut store = StreamStore::new();
    let stream_id = store
        .create_stream(SENDER, RECEIVER, TOKEN, 1000, 0, 3, CurveType::Linear, false, 0)
        .unwrap();

    let w1 = store.withdraw(stream_id, RECEIVER, 1, None).unwrap();
    assert_eq!(w1.amount, 333);
    let w2 = store.withdraw(stream_id, RECEIVER, 2, None).unwrap();
    assert_eq!(w2.amount, 333);
    let w3 = store.withdraw(stream_id, RECEIVER, 3, None).unwrap();
    assert_eq!(w3.amount, 334);

    assert_eq!(w1.amount + w2.amount + w3.amount, 1000);
    let stream = store.get_stream(stream_id).unwrap();
    assert_eq!(stream.withdrawn_amount, 1000);

    // Nothing further is withdrawable.
    assert_eq!(store.withdraw(stream_id, RECEIVER, 10, None), Err(Error::InsufficientBalance));
}

#[test]
fn test_cancel_splits_by_unlocked() {
    let mut store = StreamStore::new();
    let stream_id = simple_stream(&mut store, 100);

    let settlement = store.cancel(stream_id, SENDER, 150).unwrap();
    assert_eq!(settlement.to_receiver, 500);
    assert_eq!(settlement.to_sender, 500);
    assert_eq!(settlement.to_receiver + settlement.to_sender, 1000);

    let stream = store.get_stream(stream_id).unwrap();
    assert!(stream.cancelled);
    assert_eq!(stream.withdrawn_amount, 500);
}

#[test]
fn test_cancel_conservation_after_withdrawal() {
    // Cancellation conservation: to_receiver + to_sender equals exactly the
    // total minus what was withdrawn before.
    let mut store = StreamStore::new();
    let stream_id = simple_stream(&mut store, 100);

    let w = store.withdraw(stream_id, RECEIVER, 130, None).unwrap();
    assert_eq!(w.amount, 300);

    let settlement = store.cancel(stream_id, RECEIVER, 170).unwrap();
    assert_eq!(settlement.to_receiver, 400); // unlocked 700 - withdrawn 300
    assert_eq!(settlement.to_sender, 300); // total 1000 - unlocked 700
    assert_eq!(settlement.to_receiver + settlement.to_sender, 1000 - 300);
}

#[test]
fn test_cancel_twice_fails() {
    // Idempotent terminal transition: a second cancel fails with the
    // already-cancelled error and pays nothing again.
    let mut store = StreamStore::new();
    let stream_id = simple_stream(&mut store, 100);

    store.cancel(stream_id, SENDER, 150).unwrap();
    assert_eq!(store.cancel(stream_id, SENDER, 160), Err(Error::AlreadyCancelled));
    assert_eq!(store.cancel(stream_id, RECEIVER, 170), Err(Error::AlreadyCancelled));
}

#[test]
fn test_cancel_unauthorized() {
    let mut store = StreamStore::new();
    let stream_id = simple_stream(&mut store, 100);
    assert_eq!(store.cancel(stream_id, OTHER, 150), Err(Error::Unauthorized));
}

#[test]
fn test_top_up_extends_duration() {
    let mut store = StreamStore::new();
    let stream_id = simple_stream(&mut store, 100);

    let stream_before = store.get_stream(stream_id).unwrap();
    assert_eq!(stream_before.total_amount, 1000);
    assert_eq!(stream_before.end_time, 200);

    store.top_up_stream(stream_id, SENDER, 1000, 150).unwrap();

    let stream_after = store.get_stream(stream_id).unwrap();
    assert_eq!(stream_after.total_amount, 2000);
    assert_eq!(stream_after.end_time, 300);
}

#[test]
fn test_only_sender_can_top_up() {
    let mut store = StreamStore::new();
    let stream_id = simple_stream(&mut store, 100);
    assert_eq!(store.top_up_stream(stream_id, OTHER, 500, 150), Err(Error::Unauthorized));
}

#[test]
fn test_cannot_top_up_cancelled_stream() {
    let mut store = StreamStore::new();
    let stream_id = simple_stream(&mut store, 100);
    store.cancel(stream_id, SENDER, 150).unwrap();
    assert_eq!(store.top_up_stream(stream_id, SENDER, 1000, 150), Err(Error::AlreadyCancelled));
}

#[test]
fn test_top_up_multiple_times() {
    let mut store = StreamStore::new();
    let stream_id = simple_stream(&mut store, 100);

    store.top_up_stream(stream_id, SENDER, 1000, 150).unwrap();
    store.top_up_stream(stream_id, SENDER, 1000, 160).unwrap();

    let stream = store.get_stream(stream_id).unwrap();
    assert_eq!(stream.total_amount, 3000);
    assert_eq!(stream.end_time, 400);
}

#[test]
fn test_top_up_after_end_fails() {
    let mut store = StreamStore::new();
    let stream_id = simple_stream(&mut store, 100);
    assert_eq!(store.top_up_stream(stream_id, SENDER, 1000, 200), Err(Error::StreamEnded));
}

#[test]
fn test_top_up_zero_flow_rate_keeps_end() {
    // total 10 over 100 seconds floors the flow rate to 0: the top-up is
    // accepted with no schedule extension (the documented asymmetry).
    let mut store = StreamStore::new();
    let stream_id = store
        .create_stream(SENDER, RECEIVER, TOKEN, 10, 0, 100, CurveType::Linear, false, 0)
        .unwrap();

    store.top_up_stream(stream_id, SENDER, 50, 10).unwrap();
    let stream = store.get_stream(stream_id).unwrap();
    assert_eq!(stream.total_amount, 60);
    assert_eq!(stream.end_time, 100);
}

#[test]
fn test_create_soulbound_stream() {
    let mut store = StreamStore::new();
    let stream_id = store
        .create_stream(SENDER, RECEIVER, TOKEN, 1000, 100, 200, CurveType::Linear, true, 50)
        .unwrap();
    let stream = store.get_stream(stream_id).unwrap();
    assert!(stream.is_soulbound);
}

#[test]
fn test_create_normal_stream_not_soulbound() {
    let mut store = StreamStore::new();
    let stream_id = simple_stream(&mut store, 50);
    let stream = store.get_stream(stream_id).unwrap();
    assert!(!stream.is_soulbound);
}

#[test]
fn test_transfer_receiver_blocked_on_soulbound() {
    let mut store = StreamStore::new();
    let stream_id = store
        .create_stream(SENDER, RECEIVER, TOKEN, 1000, 100, 200, CurveType::Linear, true, 50)
        .unwrap();

    // The soulbound check precedes every other check: even the sender is
    // rejected, and so is everyone else.
    assert_eq!(
        store.transfer_receiver(stream_id, SENDER, NEW_OWNER),
        Err(Error::StreamIsSoulbound)
    );
    assert_eq!(
        store.transfer_receiver(stream_id, OTHER, NEW_OWNER),
        Err(Error::StreamIsSoulbound)
    );
    assert_eq!(
        store.transfer_receiver(stream_id, RECEIVER, NEW_OWNER),
        Err(Error::StreamIsSoulbound)
    );
}

#[test]
fn test_transfer_receiver_allowed_on_normal_stream() {
    let mut store = StreamStore::new();
    let stream_id = simple_stream(&mut store, 50);

    store.transfer_receiver(stream_id, SENDER, NEW_OWNER).unwrap();
    let stream = store.get_stream(stream_id).unwrap();
    assert_eq!(stream.receiver, NEW_OWNER);
}

#[test]
fn test_soulbound_flag_immutable_after_creation() {
    let mut store = StreamStore::new();
    let stream_id = store
        .create_stream(SENDER, RECEIVER, TOKEN, 1000, 100, 200, CurveType::Linear, true, 50)
        .unwrap();

    store.pause_stream(stream_id, SENDER, 120).unwrap();
    store.unpause_stream(stream_id, SENDER, 130).unwrap();
    let _ = store.withdraw(stream_id, RECEIVER, 160, None).unwrap();
    assert!(store.get_stream(stream_id).unwrap().is_soulbound);

    store.cancel(stream_id, SENDER, 170).unwrap();
    assert!(store.get_stream(stream_id).unwrap().is_soulbound);
}

#[test]
fn test_soulbound_stream_still_withdrawable() {
    let mut store = StreamStore::new();
    let stream_id = store
        .create_stream(SENDER, RECEIVER, TOKEN, 1000, 100, 200, CurveType::Linear, true, 50)
        .unwrap();

    let withdrawn = store.withdraw(stream_id, RECEIVER, 150, None).unwrap();
    assert_eq!(withdrawn.amount, 500);
}

#[test]
fn test_soulbound_stream_cancellable_by_sender() {
    let mut store = StreamStore::new();
    let stream_id = store
        .create_stream(SENDER, RECEIVER, TOKEN, 1000, 100, 200, CurveType::Linear, true, 50)
        .unwrap();

    let settlement = store.cancel(stream_id, SENDER, 150).unwrap();
    assert_eq!(settlement.to_receiver + settlement.to_sender, 1000);
    assert!(store.get_stream(stream_id).unwrap().cancelled);
}

#[test]
fn test_freeze_stream() {
    let mut store = StreamStore::new();
    let stream_id = simple_stream(&mut store, 50);

    store.set_arbiter(stream_id, SENDER, ARBITER).unwrap();
    store.freeze_stream(stream_id, ARBITER).unwrap();

    let stream = store.get_stream(stream_id).unwrap();
    assert!(stream.is_frozen);
}

#[test]
fn test_withdraw_from_frozen_stream_fails() {
    let mut store = StreamStore::new();
    let stream_id = simple_stream(&mut store, 50);

    store.set_arbiter(stream_id, SENDER, ARBITER).unwrap();
    store.freeze_stream(stream_id, ARBITER).unwrap();

    assert_eq!(store.withdraw(stream_id, RECEIVER, 150, None), Err(Error::StreamFrozen));
}

#[test]
fn test_resolve_dispute() {
    let mut store = StreamStore::new();
    let stream_id = simple_stream(&mut store, 50);

    store.set_arbiter(stream_id, SENDER, ARBITER).unwrap();
    let settlement = store.resolve_dispute(stream_id, ARBITER, 6000).unwrap();

    let stream = store.get_stream(stream_id).unwrap();
    assert!(stream.cancelled);
    assert_eq!(settlement.to_receiver, 600);
    assert_eq!(settlement.to_sender, 400);
}

#[test]
fn test_non_arbiter_cannot_freeze() {
    let mut store = StreamStore::new();
    let stream_id = simple_stream(&mut store, 50);

    store.set_arbiter(stream_id, SENDER, ARBITER).unwrap();
    assert_eq!(store.freeze_stream(stream_id, OTHER), Err(Error::Unauthorized));
    // With no arbiter appointed at all, nobody may freeze.
    let other_id = simple_stream(&mut store, 50);
    assert_eq!(store.freeze_stream(other_id, ARBITER), Err(Error::Unauthorized));
}

#[test]
fn test_resolve_dispute_twice_fails() {
    let mut store = StreamStore::new();
    let stream_id = simple_stream(&mut store, 50);

    store.set_arbiter(stream_id, SENDER, ARBITER).unwrap();
    store.resolve_dispute(stream_id, ARBITER, 2500).unwrap();
    assert_eq!(store.resolve_dispute(stream_id, ARBITER, 2500), Err(Error::AlreadyCancelled));
}

#[test]
fn test_resolve_dispute_after_freeze_unblocks_nothing_else() {
    // Freezing blocks withdrawal; resolution closes the stream entirely.
    let mut store = StreamStore::new();
    let stream_id = simple_stream(&mut store, 50);

    store.set_arbiter(stream_id, SENDER, ARBITER).unwrap();
    store.freeze_stream(stream_id, ARBITER).unwrap();
    let settlement = store.resolve_dispute(stream_id, ARBITER, 10000).unwrap();
    assert_eq!(settlement.to_receiver, 1000);
    assert_eq!(settlement.to_sender, 0);
    assert!(!store.get_stream(stream_id).unwrap().is_frozen);
    assert_eq!(store.withdraw(stream_id, RECEIVER, 300, None), Err(Error::AlreadyCancelled));
}

#[test]
fn test_governance_clawback() {
    let mut store = StreamStore::new();
    let stream_id = simple_stream(&mut store, 50);

    let settlement = store.governance_clawback(stream_id, true, ISSUER).unwrap();

    let stream = store.get_stream(stream_id).unwrap();
    assert!(stream.cancelled);
    assert_eq!(settlement.issuer, ISSUER);
    assert_eq!(settlement.amount, 1000); // All funds clawed back
}

#[test]
fn test_clawback_requires_compliance_officer_role() {
    let mut store = StreamStore::new();
    let stream_id = simple_stream(&mut store, 50);
    assert_eq!(store.governance_clawback(stream_id, false, ISSUER), Err(Error::Unauthorized));
}

#[test]
fn test_clawback_after_partial_withdrawal() {
    let mut store = StreamStore::new();
    let stream_id = simple_stream(&mut store, 50);

    // Receiver withdraws 500 at the midpoint.
    let w = store.withdraw(stream_id, RECEIVER, 150, None).unwrap();
    assert_eq!(w.amount, 500);

    // Clawback routes the remaining 500 to the issuer.
    let settlement = store.governance_clawback(stream_id, true, ISSUER).unwrap();
    assert_eq!(settlement.amount, 500);
}

#[test]
fn test_clawback_twice_fails() {
    let mut store = StreamStore::new();
    let stream_id = simple_stream(&mut store, 50);
    store.governance_clawback(stream_id, true, ISSUER).unwrap();
    assert_eq!(
        store.governance_clawback(stream_id, true, ISSUER),
        Err(Error::AlreadyCancelled)
    );
}

#[test]
fn test_usd_pegged_stream_repricing() {
    // $100.0000000 over [0,100); price 2.0000000 at creation gives a
    // 500_000_000-token deposit; withdrawal at the midpoint reprices.
    let mut store = StreamStore::new();
    let usd = 1_000_000_000i128; // $100 in 7 decimals
    let create_quote = Some(PriceQuote { price: 20_000_000, as_of: 0 });
    let stream_id = store
        .create_usd_pegged_stream(
            SENDER,
            RECEIVER,
            TOKEN,
            usd,
            0,
            100,
            9,
            60,
            10_000_000,
            40_000_000,
            create_quote,
            0,
        )
        .unwrap();

    let stream = store.get_stream(stream_id).unwrap();
    assert_eq!(stream.total_amount, 500_000_000);

    // Half the USD value is unlocked at t=50; at the same price that is
    // 250_000_000 tokens.
    let quote = Some(PriceQuote { price: 20_000_000, as_of: 50 });
    let w = store.withdraw(stream_id, RECEIVER, 50, quote).unwrap();
    assert_eq!(w.amount, 250_000_000);

    // If the price doubles, the same unlocked USD buys half the tokens:
    // entitlement 250_000_000 at the new price, already withdrawn.
    let pricier = Some(PriceQuote { price: 40_000_000, as_of: 60 });
    assert_eq!(store.withdraw(stream_id, RECEIVER, 60, pricier), Err(Error::InsufficientBalance));
}

#[test]
fn test_usd_pegged_stale_quote_rejected() {
    let mut store = StreamStore::new();
    let usd = 1_000_000_000i128;
    let create_quote = Some(PriceQuote { price: 20_000_000, as_of: 0 });
    let stream_id = store
        .create_usd_pegged_stream(
            SENDER,
            RECEIVER,
            TOKEN,
            usd,
            0,
            100,
            9,
            60,
            10_000_000,
            40_000_000,
            create_quote,
            0,
        )
        .unwrap();

    // A quote older than max_staleness aborts the withdrawal untouched.
    let stale = Some(PriceQuote { price: 20_000_000, as_of: 0 });
    assert_eq!(store.withdraw(stream_id, RECEIVER, 90, stale), Err(Error::OracleStalePrice));
    // A missing quote does too.
    assert_eq!(store.withdraw(stream_id, RECEIVER, 90, None), Err(Error::OracleStalePrice));
    // An out-of-bounds price is its own failure.
    let cheap = Some(PriceQuote { price: 5_000_000, as_of: 90 });
    assert_eq!(store.withdraw(stream_id, RECEIVER, 90, cheap), Err(Error::PriceOutOfBounds));
    // Nothing changed.
    assert_eq!(store.get_stream(stream_id).unwrap().withdrawn_amount, 0);
}

#[test]
fn test_usd_pegged_creation_requires_quote() {
    let mut store = StreamStore::new();
    assert_eq!(
        store.create_usd_pegged_stream(
            SENDER,
            RECEIVER,
            TOKEN,
            1_000_000_000,
            0,
            100,
            9,
            60,
            10_000_000,
            40_000_000,
            None,
            0,
        ),
        Err(Error::OracleFailed)
    );
    let out_of_bounds = Some(PriceQuote { price: 50_000_000, as_of: 0 });
    assert_eq!(
        store.create_usd_pegged_stream(
            SENDER,
            RECEIVER,
            TOKEN,
            1_000_000_000,
            0,
            100,
            9,
            60,
            10_000_000,
            40_000_000,
            out_of_bounds,
            0,
        ),
        Err(Error::PriceOutOfBounds)
    );
}

#[test]
fn test_create_stream_rejects_bad_params() {
    let mut store = StreamStore::new();
    assert_eq!(
        store.create_stream(SENDER, RECEIVER, TOKEN, 1000, 200, 100, CurveType::Linear, false, 0),
        Err(Error::InvalidTimeRange)
    );
    assert_eq!(
        store.create_stream(SENDER, RECEIVER, TOKEN, 0, 100, 200, CurveType::Linear, false, 0),
        Err(Error::InvalidAmount)
    );
    assert_eq!(
        store.create_stream(SENDER, RECEIVER, TOKEN, -5, 100, 200, CurveType::Linear, false, 0),
        Err(Error::InvalidAmount)
    );
}

#[test]
fn test_create_stream_rejects_bad_milestones() {
    let mut store = StreamStore::new();
    let over_hundred = vec![Milestone { timestamp: 50, percentage: 120 }];
    assert_eq!(
        store.create_stream_with_milestones(
            SENDER,
            RECEIVER,
            TOKEN,
            1000,
            0,
            100,
            over_hundred,
            CurveType::Linear,
            false,
            None,
            0,
        ),
        Err(Error::InvalidAmount)
    );
    let unordered = vec![
        Milestone { timestamp: 80, percentage: 50 },
        Milestone { timestamp: 40, percentage: 75 },
    ];
    assert_eq!(
        store.create_stream_with_milestones(
            SENDER,
            RECEIVER,
            TOKEN,
            1000,
            0,
            100,
            unordered,
            CurveType::Linear,
            false,
            None,
            0,
        ),
        Err(Error::InvalidAmount)
    );
}

#[test]
fn test_unknown_stream_id_fails() {
    let mut store = StreamStore::new();
    assert_eq!(store.withdraw(7, RECEIVER, 100, None), Err(Error::StreamNotFound));
    assert_eq!(store.cancel(7, SENDER, 100), Err(Error::StreamNotFound));
    assert!(store.get_stream(7).is_err());
    assert!(store.get_receipt(7).is_err());
}

#[test]
fn test_pause_non_accrual_scenario() {
    // total=1000 over [100,300); pause at t=150 (unlocked 250); while still
    // paused at t=200 the unlocked amount stays 250; after unpausing at
    // t=200 it grows again by t=250.
    let mut store = StreamStore::new();
    let stream_id = store
        .create_stream(SENDER, RECEIVER, TOKEN, 1000, 100, 300, CurveType::Linear, false, 100)
        .unwrap();

    let before = store.get_receipt_metadata(stream_id, 150).unwrap();
    assert_eq!(before.unlocked_balance, 250);

    store.pause_stream(stream_id, SENDER, 150).unwrap();
    let paused = store.get_receipt_metadata(stream_id, 200).unwrap();
    assert_eq!(paused.unlocked_balance, 250);

    store.unpause_stream(stream_id, SENDER, 200).unwrap();
    // Immediately after unpausing the entitlement is unchanged...
    let resumed = store.get_receipt_metadata(stream_id, 200).unwrap();
    assert_eq!(resumed.unlocked_balance, 250);
    // ...and it grows again as time passes.
    let later = store.get_receipt_metadata(stream_id, 250).unwrap();
    assert_eq!(later.unlocked_balance, 500);
}
