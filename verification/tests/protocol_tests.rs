use pgqueue::claim_from_rows;
use pgqueue::create_statement;
use pgqueue::Failure;
use pgqueue::QueueMessage;
use pgqueue::QueueModel;

#[test]
fn fifo_under_no_contention() {
    let mut q = QueueModel::new();
    q.initialize();
    let payloads: Vec<&[u8]> = vec![b"P1", b"P2", b"P3", b"P4", b"P5"];
    for p in &payloads {
        q.enqueue(p.to_vec());
    }
    for p in &payloads {
        let m = q.dequeue().expect("a row should be claimed");
        assert_eq!(m.payload.as_slice(), *p);
    }
    assert!(q.dequeue().is_none());
}

#[test]
fn empty_queue_returns_no_message() {
    let mut q = QueueModel::new();
    q.initialize();
    assert!(q.dequeue().is_none());
}

#[test]
fn at_most_once_delivery() {
    let mut q = QueueModel::new();
    q.initialize();
    let mut enqueued = vec![
        q.enqueue(b"a".to_vec()),
        q.enqueue(b"b".to_vec()),
        q.enqueue(b"c".to_vec()),
    ];
    let mut claimed = Vec::new();
    while let Some(m) = q.dequeue() {
        assert!(
            !claimed.contains(&m.id),
            "an identity must never be returned twice"
        );
        claimed.push(m.id);
    }
    enqueued.sort();
    claimed.sort();
    assert_eq!(enqueued, claimed);
}

#[test]
fn round_trip_payload_fidelity() {
    let cases: Vec<Vec<u8>> = vec![
        Vec::new(),
        vec![0u8],
        vec![255u8, 0u8, 127u8],
        b"Hello World".to_vec(),
        (0u8..=255u8).collect(),
    ];
    let mut q = QueueModel::new();
    q.initialize();
    for c in &cases {
        q.enqueue(c.clone());
    }
    for c in &cases {
        let m = q.dequeue().expect("a row should be claimed");
        assert_eq!(&m.payload, c, "payloads must round-trip byte-for-byte");
    }
}

#[test]
fn idempotent_initialization() {
    let mut once = QueueModel::new();
    once.initialize();

    let mut twice = QueueModel::new();
    twice.initialize();
    twice.initialize();

    let a = once.enqueue(b"x".to_vec());
    let b = twice.enqueue(b"x".to_vec());
    assert_eq!(a, b, "enqueue must behave as after a single initialization");
    let ma = once.dequeue().expect("a row should be claimed");
    let mb = twice.dequeue().expect("a row should be claimed");
    assert_eq!(ma.id, mb.id);
    assert_eq!(ma.payload, mb.payload);
    assert!(once.dequeue().is_none());
    assert!(twice.dequeue().is_none());
}

#[test]
fn orders_scenario() {
    assert!(create_statement("orders").starts_with("CREATE TABLE IF NOT EXISTS orders "));
    let mut q = QueueModel::new();
    q.initialize();
    for n in 1i32..10 {
        q.enqueue(n.to_ne_bytes().to_vec());
    }
    for expected in 1i32..10 {
        let m = q.dequeue().expect("a row should be claimed");
        let mut buf = [0u8; 4];
        buf.copy_from_slice(&m.payload);
        assert_eq!(expected, i32::from_ne_bytes(buf));
    }
    assert!(q.dequeue().is_none(), "the tenth dequeue finds no message");
}

#[test]
fn pair_of_consumers_share_nothing() {
    let mut q = QueueModel::new();
    q.initialize();
    let first = q.enqueue(b"one".to_vec());
    let second = q.enqueue(b"two".to_vec());

    let claimed_a = q.dequeue().expect("a row should be claimed");
    let claimed_b = q.dequeue().expect("a row should be claimed");
    assert_ne!(claimed_a.id, claimed_b.id, "no duplicate delivery");
    let mut claimed = vec![claimed_a.id, claimed_b.id];
    let mut enqueued = vec![first, second];
    claimed.sort();
    enqueued.sort();
    assert_eq!(claimed, enqueued, "no message lost");
    assert!(q.dequeue().is_none());
}

fn message(payload: &[u8]) -> QueueMessage {
    QueueMessage {
        id: uuid::Uuid::nil(),
        inserted_at: std::time::SystemTime::UNIX_EPOCH,
        data: payload.to_vec(),
    }
}

#[test]
fn claim_of_no_rows_is_no_message() {
    match claim_from_rows(Vec::new()) {
        Ok(None) => {}
        _ => panic!("an empty result must be the no-message outcome, not an error"),
    }
}

#[test]
fn claim_of_one_row_returns_it() {
    let rows = vec![message(b"Hello World")];
    match claim_from_rows(rows) {
        Ok(Some(m)) => {
            assert_eq!(m.data.as_slice(), b"Hello World");
            assert_eq!(m.id, uuid::Uuid::nil());
        }
        _ => panic!("a single row must be returned"),
    }
}

#[test]
fn claim_of_empty_payload_row_round_trips() {
    let rows = vec![message(b"")];
    match claim_from_rows(rows) {
        Ok(Some(m)) => assert!(m.data.is_empty()),
        _ => panic!("a single row must be returned"),
    }
}

#[test]
fn claim_of_multiple_rows_is_an_anomaly() {
    let rows = vec![message(b"a"), message(b"b")];
    match claim_from_rows(rows) {
        Err(Failure::QueueError(text)) => {
            assert_eq!(text, "expected one row, got multiple rows");
        }
        _ => panic!("more than one row must fail the single-row invariant"),
    }
}
