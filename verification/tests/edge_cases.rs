use btc_stream_backend::{
    error_text, greet, CancelResult, Identity, Ledger, Operation, Registry, Role, Stream,
    StreamError, StreamStatus, FEE_DIVISOR,
};

fn payer() -> Identity {
    Identity::from_slice(&[10, 20, 30, 40])
}

fn payee() -> Identity {
    Identity::from_slice(&[10, 20, 30, 41])
}

fn fee_on(unused: u64) -> CancelResult {
    let mut stream = Stream::open(0, payer(), payee(), 1, 10, unused, 0);
    stream.cancel(&payer()).unwrap()
}

#[test]
fn ids_are_given_in_order_from_zero() {
    let mut ledger = Ledger::new();
    assert_eq!(ledger.next_id(), 0);
    assert_eq!(ledger.create_stream(payer(), payee(), 1, 1, 1, 0), 0);
    assert_eq!(ledger.create_stream(payer(), payee(), 1, 1, 1, 0), 1);
    assert_eq!(ledger.create_stream(payee(), payer(), 1, 1, 1, 0), 2);
    assert_eq!(ledger.next_id(), 3);
    for id in 0..3 {
        assert_eq!(ledger.get_stream(id).unwrap().id(), id);
    }
}

#[test]
fn an_unknown_stream_is_not_found_by_any_request() {
    let mut ledger = Ledger::new();
    ledger.create_stream(payer(), payee(), 1, 1, 1, 0);
    assert!(ledger.get_stream(1).is_none());
    assert!(ledger.get_stream(u64::MAX).is_none());
    assert_eq!(ledger.claim_stream(1, &payee(), 5), Err(StreamError::NotFound));
    assert_eq!(ledger.top_up_stream(1, &payer(), 5), Err(StreamError::NotFound));
    assert_eq!(ledger.cancel_stream(1, &payer()), Err(StreamError::NotFound));
    assert_eq!(ledger.reclaim_unclaimed(u64::MAX, &payer(), 5), Err(StreamError::NotFound));
}

#[test]
fn an_empty_buffer_gives_nothing_to_claim_or_reclaim() {
    let mut ledger = Ledger::new();
    let id = ledger.create_stream(payer(), payee(), 10, 100, 1000, 0);
    assert_eq!(ledger.claim_stream(id, &payee(), 1), Err(StreamError::NothingToDo));
    assert_eq!(
        ledger.reclaim_unclaimed(id, &payer(), u64::MAX),
        Err(StreamError::NothingToDo)
    );
    ledger.canister_heartbeat(10);
    assert_eq!(ledger.claim_stream(id, &payee(), 10), Ok(100));
    assert_eq!(ledger.claim_stream(id, &payee(), 10), Err(StreamError::NothingToDo));
}

#[test]
fn a_stream_that_is_over_takes_no_top_up_and_no_cancellation() {
    let mut ledger = Ledger::new();
    let done = ledger.create_stream(payer(), payee(), 10, 100, 1000, 0);
    let stopped = ledger.create_stream(payer(), payee(), 10, 100, 1000, 0);
    assert!(ledger.cancel_stream(stopped, &payer()).is_ok());
    ledger.canister_heartbeat(100);
    assert_eq!(ledger.get_stream(done).unwrap().status(), StreamStatus::Completed);
    assert_eq!(ledger.get_stream(stopped).unwrap().status(), StreamStatus::Cancelled);
    for id in [done, stopped] {
        assert_eq!(ledger.top_up_stream(id, &payer(), 1), Err(StreamError::InvalidState));
        assert_eq!(ledger.cancel_stream(id, &payer()), Err(StreamError::InvalidState));
        assert_eq!(ledger.get_stream(id).unwrap().total_locked(), 1000);
    }
    assert_eq!(ledger.get_stream(done).unwrap().status(), StreamStatus::Completed);
    assert_eq!(ledger.get_stream(stopped).unwrap().status(), StreamStatus::Cancelled);
}

#[test]
fn the_caller_is_checked_before_the_state() {
    let mut ledger = Ledger::new();
    let id = ledger.create_stream(payer(), payee(), 10, 100, 1000, 0);
    assert_eq!(ledger.claim_stream(id, &payer(), 1), Err(StreamError::Unauthorized));
    assert_eq!(ledger.reclaim_unclaimed(id, &payee(), 1), Err(StreamError::Unauthorized));
    ledger.canister_heartbeat(100);
    assert_eq!(ledger.top_up_stream(id, &payee(), 1), Err(StreamError::Unauthorized));
    assert_eq!(ledger.cancel_stream(id, &payee()), Err(StreamError::Unauthorized));
}

#[test]
fn a_cancelled_stream_stops_accruing_but_keeps_its_buffer() {
    let mut ledger = Ledger::new();
    let id = ledger.create_stream(payer(), payee(), 10, 100, 1000, 0);
    ledger.canister_heartbeat(20);
    assert_eq!(
        ledger.cancel_stream(id, &payer()),
        Ok(CancelResult { refund: 792, fee: 8 })
    );
    ledger.canister_heartbeat(90);
    let stream = ledger.get_stream(id).unwrap();
    assert_eq!(stream.total_released(), 200);
    assert_eq!(stream.last_release_time(), 20);
    assert_eq!(stream.buffer(), 200);
    assert_eq!(stream.status(), StreamStatus::Cancelled);
    assert_eq!(ledger.claim_stream(id, &payee(), 95), Ok(200));
    assert_eq!(ledger.get_stream(id).unwrap().buffer(), 0);
}

#[test]
fn a_top_up_raises_the_locked_amount_and_leaves_the_end_time() {
    let mut ledger = Ledger::new();
    let id = ledger.create_stream(payer(), payee(), 10, 100, 500, 0);
    assert_eq!(ledger.top_up_stream(id, &payer(), 700), Ok(()));
    let stream = ledger.get_stream(id).unwrap();
    assert_eq!(stream.total_locked(), 1200);
    assert_eq!(stream.end_time(), 100);
    ledger.canister_heartbeat(99);
    let stream = ledger.get_stream(id).unwrap();
    assert_eq!(stream.total_released(), 990);
    assert_eq!(stream.status(), StreamStatus::Active);
    ledger.canister_heartbeat(100);
    let stream = ledger.get_stream(id).unwrap();
    assert_eq!(stream.total_released(), 1000);
    assert_eq!(stream.status(), StreamStatus::Completed);
}

#[test]
fn a_top_up_stops_at_the_largest_amount() {
    let mut ledger = Ledger::new();
    let id = ledger.create_stream(payer(), payee(), 1, 100, u64::MAX - 5, 0);
    assert_eq!(ledger.top_up_stream(id, &payer(), 5), Ok(()));
    assert_eq!(ledger.get_stream(id).unwrap().total_locked(), u64::MAX);
    assert_eq!(ledger.top_up_stream(id, &payer(), 1_000), Ok(()));
    assert_eq!(ledger.get_stream(id).unwrap().total_locked(), u64::MAX);
}

#[test]
fn the_end_time_stops_at_the_largest_time() {
    let mut ledger = Ledger::new();
    let id = ledger.create_stream(payer(), payee(), 1, u64::MAX, 10, 5);
    let stream = ledger.get_stream(id).unwrap();
    assert_eq!(stream.start_time(), 5);
    assert_eq!(stream.end_time(), u64::MAX);
    ledger.canister_heartbeat(15);
    assert_eq!(ledger.get_stream(id).unwrap().buffer(), 10);
    assert_eq!(
        ledger.reclaim_unclaimed(id, &payer(), u64::MAX),
        Err(StreamError::TimeoutNotReached)
    );
    assert_eq!(ledger.get_stream(id).unwrap().buffer(), 10);
}

#[test]
fn a_rate_too_large_to_multiply_is_capped_by_what_remains() {
    let mut ledger = Ledger::new();
    let id = ledger.create_stream(payer(), payee(), u64::MAX, 1_000, 12_345, 0);
    ledger.canister_heartbeat(3);
    let stream = ledger.get_stream(id).unwrap();
    assert_eq!(stream.total_released(), 12_345);
    assert_eq!(stream.buffer(), 12_345);
    assert_eq!(stream.status(), StreamStatus::Completed);

    let big = ledger.create_stream(payer(), payee(), u64::MAX / 2, 1_000, u64::MAX, 0);
    ledger.canister_heartbeat(4);
    let stream = ledger.get_stream(big).unwrap();
    assert_eq!(stream.total_released(), u64::MAX);
    assert_eq!(stream.status(), StreamStatus::Completed);
}

#[test]
fn a_stream_without_rate_or_without_time_is_accepted() {
    let mut ledger = Ledger::new();
    let idle = ledger.create_stream(payer(), payee(), 0, 100, 1000, 0);
    let instant = ledger.create_stream(payer(), payee(), 10, 0, 1000, 0);
    let hollow = ledger.create_stream(payer(), payee(), 10, 100, 0, 0);
    ledger.canister_heartbeat(0);
    for id in [idle, instant, hollow] {
        let stream = ledger.get_stream(id).unwrap();
        assert_eq!(stream.status(), StreamStatus::Active);
        assert_eq!(stream.total_released(), 0);
    }
    ledger.canister_heartbeat(1);
    let stream = ledger.get_stream(idle).unwrap();
    assert_eq!(stream.total_released(), 0);
    assert_eq!(stream.status(), StreamStatus::Active);
    let stream = ledger.get_stream(instant).unwrap();
    assert_eq!(stream.total_released(), 10);
    assert_eq!(stream.status(), StreamStatus::Completed);
    let stream = ledger.get_stream(hollow).unwrap();
    assert_eq!(stream.total_released(), 0);
    assert_eq!(stream.status(), StreamStatus::Completed);
    ledger.canister_heartbeat(100);
    let stream = ledger.get_stream(idle).unwrap();
    assert_eq!(stream.total_released(), 0);
    assert_eq!(stream.status(), StreamStatus::Completed);
}

#[test]
fn the_fee_is_the_nearest_hundredth_with_halves_up() {
    assert_eq!(FEE_DIVISOR, 100);
    assert_eq!(fee_on(0), CancelResult { refund: 0, fee: 0 });
    assert_eq!(fee_on(1), CancelResult { refund: 1, fee: 0 });
    assert_eq!(fee_on(49), CancelResult { refund: 49, fee: 0 });
    assert_eq!(fee_on(50), CancelResult { refund: 49, fee: 1 });
    assert_eq!(fee_on(100), CancelResult { refund: 99, fee: 1 });
    assert_eq!(fee_on(149), CancelResult { refund: 148, fee: 1 });
    assert_eq!(fee_on(150), CancelResult { refund: 148, fee: 2 });
    assert_eq!(fee_on(700), CancelResult { refund: 693, fee: 7 });
    assert_eq!(fee_on(1_000_000), CancelResult { refund: 990_000, fee: 10_000 });
    assert_eq!(
        fee_on(u64::MAX),
        CancelResult { refund: 18_262_276_632_972_456_099, fee: 184_467_440_737_095_516 }
    );
    assert_eq!(
        fee_on(u64::MAX - 65),
        CancelResult { refund: 18_262_276_632_972_456_034, fee: 184_467_440_737_095_516 }
    );
}

#[test]
fn a_stream_on_its_own_goes_through_the_same_steps() {
    let mut stream = Stream::open(4, payer(), payee(), 10, 100, 1000, 0);
    assert_eq!(stream.id(), 4);
    assert!(stream.is_authorized(&payer(), Role::Sender));
    assert!(!stream.is_authorized(&payer(), Role::Recipient));
    assert!(stream.is_authorized(&payee(), Role::Recipient));
    assert!(!stream.is_authorized(&payee(), Role::Sender));
    stream.accrue(50);
    assert_eq!(stream.buffer(), 500);
    assert_eq!(stream.claim(&payer(), 50), Err(StreamError::Unauthorized));
    assert_eq!(stream.claim(&payee(), 50), Ok(500));
    assert_eq!(stream.top_up(&payer(), 10), Ok(()));
    assert_eq!(stream.total_locked(), 1010);
    stream.accrue(60);
    assert_eq!(stream.reclaim(&payer(), 61), Err(StreamError::TimeoutNotReached));
    assert_eq!(stream.cancel(&payer()), Ok(CancelResult { refund: 406, fee: 4 }));
    assert_eq!(stream.status(), StreamStatus::Cancelled);
    assert_eq!(stream.reclaim(&payer(), 100 + 604_800), Ok(100));
    assert_eq!(stream.buffer(), 0);
}

#[test]
fn a_snapshot_does_not_follow_the_ledger() {
    let mut ledger = Ledger::new();
    let id = ledger.create_stream(payer(), payee(), 10, 100, 1000, 0);
    let early = ledger.get_stream(id).unwrap();
    ledger.canister_heartbeat(10);
    assert_eq!(early.total_released(), 0);
    assert_eq!(ledger.get_stream(id).unwrap().total_released(), 100);
    let copy = early.clone();
    assert_eq!(copy.id(), early.id());
    assert_eq!(copy.sender(), early.sender());
    assert_eq!(copy.recipient(), early.recipient());
    assert_eq!(copy.total_locked(), 1000);
}

#[test]
fn a_user_is_listed_the_streams_it_takes_part_in() {
    let third = Identity::from_slice(&[77]);
    let mut ledger = Ledger::new();
    ledger.create_stream(payer(), payee(), 1, 1, 1, 0);
    ledger.create_stream(payee(), third.clone(), 1, 1, 1, 0);
    ledger.create_stream(third.clone(), payer(), 1, 1, 1, 0);
    ledger.create_stream(payer(), payer(), 1, 1, 1, 0);

    let mut ids: Vec<u64> =
        ledger.list_streams_for_user(&payer()).iter().map(|s| s.id()).collect();
    ids.sort();
    assert_eq!(ids, vec![0, 2, 3]);
    let mut ids: Vec<u64> =
        ledger.list_streams_for_user(&payee()).iter().map(|s| s.id()).collect();
    ids.sort();
    assert_eq!(ids, vec![0, 1]);
    let mut ids: Vec<u64> = ledger.list_streams_for_user(&third).iter().map(|s| s.id()).collect();
    ids.sort();
    assert_eq!(ids, vec![1, 2]);
    assert!(ledger.list_streams_for_user(&Identity::from_slice(&[])).is_empty());
    assert!(Ledger::new().list_streams_for_user(&payer()).is_empty());
}

#[test]
fn templates_keep_what_they_were_created_with() {
    let mut registry = Registry::new();
    assert_eq!(registry.next_id(), 0);
    assert!(registry.list_templates().is_empty());
    let first =
        registry.create_template("daily".to_string(), "a day".to_string(), 86_400, 5, payer(), 11);
    let second = registry.create_template(String::new(), String::new(), 0, 0, payee(), 12);
    assert_eq!((first, second), (0, 1));
    assert_eq!(registry.next_id(), 2);

    let mut templates = registry.list_templates();
    templates.sort_by_key(|t| t.id());
    assert_eq!(templates.len(), 2);
    assert_eq!(templates[0].id(), 0);
    assert_eq!(templates[0].name(), "daily");
    assert_eq!(templates[0].description(), "a day");
    assert_eq!(templates[0].duration_secs(), 86_400);
    assert_eq!(templates[0].sats_per_sec(), 5);
    assert_eq!(templates[0].creator(), &payer());
    assert_eq!(templates[0].created_at(), 11);
    assert_eq!(templates[0].usage_count(), 0);
    assert_eq!(templates[1].id(), 1);
    assert_eq!(templates[1].name(), "");
    assert_eq!(templates[1].creator(), &payee());
    assert_eq!(templates[1].created_at(), 12);
    let copy = templates[0].clone();
    assert_eq!(copy.name(), "daily");
    assert_eq!(copy.usage_count(), 0);
}

#[test]
fn the_caller_not_the_template_creator_becomes_the_sender() {
    let mut ledger = Ledger::new();
    let mut registry = Registry::new();
    let template = registry.create_template("t".to_string(), "d".to_string(), 50, 2, payer(), 0);
    let id = registry
        .create_stream_from_template(&mut ledger, template, payee(), payer(), 100, 7)
        .unwrap();
    let stream = ledger.get_stream(id).unwrap();
    assert_eq!(stream.sender(), &payee());
    assert_eq!(stream.recipient(), &payer());
    assert_eq!(stream.end_time(), 57);
    let templates = registry.list_templates();
    assert_eq!(templates[0].creator(), &payer());
    assert_eq!(templates[0].usage_count(), 1);
    assert_eq!(templates[0].sats_per_sec(), 2);
    assert_eq!(templates[0].duration_secs(), 50);
}

#[test]
fn identities_are_equal_when_their_bytes_are() {
    let a = Identity::new(vec![1, 2, 3]);
    let b = Identity::from_slice(&[1, 2, 3]);
    let shorter = Identity::from_slice(&[1, 2]);
    let other = Identity::from_slice(&[1, 2, 4]);
    let nobody = Identity::new(Vec::new());
    assert!(a == b);
    assert!(a != shorter);
    assert!(shorter != a);
    assert!(a != other);
    assert!(a != nobody);
    assert!(nobody == Identity::from_slice(&[]));
    assert!(a.clone() == a);
    assert_eq!(a.as_slice(), &[1u8, 2, 3][..]);
    assert_eq!(nobody.as_slice().len(), 0);
}

#[test]
fn every_refusal_has_its_words() {
    let text = |op, err| error_text(op, err);
    assert_eq!(text(Operation::Claim, StreamError::NotFound).unwrap(), "Stream not found");
    assert_eq!(text(Operation::TopUp, StreamError::NotFound).unwrap(), "Stream not found");
    assert_eq!(text(Operation::Cancel, StreamError::NotFound).unwrap(), "Stream not found");
    assert_eq!(text(Operation::Reclaim, StreamError::NotFound).unwrap(), "Stream not found");
    assert_eq!(
        text(Operation::Instantiate, StreamError::NotFound).unwrap(),
        "Template not found"
    );
    assert_eq!(
        text(Operation::Claim, StreamError::Unauthorized).unwrap(),
        "Only the recipient can claim"
    );
    assert_eq!(
        text(Operation::TopUp, StreamError::Unauthorized).unwrap(),
        "Only the sender can top up"
    );
    assert_eq!(
        text(Operation::Cancel, StreamError::Unauthorized).unwrap(),
        "Only the sender can cancel"
    );
    assert_eq!(
        text(Operation::Reclaim, StreamError::Unauthorized).unwrap(),
        "Only the sender can reclaim"
    );
    assert_eq!(
        text(Operation::TopUp, StreamError::InvalidState).unwrap(),
        "Stream is not active"
    );
    assert_eq!(
        text(Operation::Cancel, StreamError::InvalidState).unwrap(),
        "Stream is not active"
    );
    assert_eq!(text(Operation::Claim, StreamError::NothingToDo).unwrap(), "No funds to claim");
    assert_eq!(
        text(Operation::Reclaim, StreamError::NothingToDo).unwrap(),
        "No unclaimed funds to reclaim"
    );
    assert_eq!(
        text(Operation::Reclaim, StreamError::TimeoutNotReached).unwrap(),
        "Reclaim timeout not reached"
    );
}

#[test]
fn a_refusal_that_cannot_happen_has_no_words() {
    assert_eq!(error_text(Operation::Claim, StreamError::InvalidState), None);
    assert_eq!(error_text(Operation::Claim, StreamError::TimeoutNotReached), None);
    assert_eq!(error_text(Operation::TopUp, StreamError::NothingToDo), None);
    assert_eq!(error_text(Operation::TopUp, StreamError::TimeoutNotReached), None);
    assert_eq!(error_text(Operation::Cancel, StreamError::NothingToDo), None);
    assert_eq!(error_text(Operation::Cancel, StreamError::TimeoutNotReached), None);
    assert_eq!(error_text(Operation::Reclaim, StreamError::InvalidState), None);
    assert_eq!(error_text(Operation::Instantiate, StreamError::Unauthorized), None);
    assert_eq!(error_text(Operation::Instantiate, StreamError::InvalidState), None);
    assert_eq!(error_text(Operation::Instantiate, StreamError::NothingToDo), None);
    assert_eq!(error_text(Operation::Instantiate, StreamError::TimeoutNotReached), None);
}

#[test]
fn a_caller_is_greeted_by_name() {
    assert_eq!(greet("Satoshi".to_string()), "Hello, Satoshi!");
    assert_eq!(greet(String::new()), "Hello, !");
}
