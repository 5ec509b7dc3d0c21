use std::sync::Arc;

use greptimedb_client::api::v1::{
    GreptimeRequest, Request, Row, RowInsertRequest, RowInsertRequests, Rows,
};
use greptimedb_client::helpers::values::i64_value;
use greptimedb_client::{Client, Forward, Offer, StreamInsertor};
use parking_lot::Mutex;

struct Observed {
    session: StreamInsertor,
    accepted: Vec<i64>,
    refused_while_full: usize,
}

fn numbered(n: i64) -> RowInsertRequests {
    RowInsertRequests {
        inserts: vec![RowInsertRequest {
            table_name: "t".to_string(),
            rows: Some(Rows { schema: vec![], rows: vec![Row { values: vec![i64_value(n)] }] }),
        }],
    }
}

fn number_of(message: &GreptimeRequest) -> i64 {
    match &message.request {
        Some(Request::RowInserts(requests)) => {
            match requests.inserts[0].rows.as_ref().unwrap().rows[0].values[0].value_data {
                Some(greptimedb_client::api::v1::ValueData::I64Value(n)) => n,
                _ => panic!("unexpected cell"),
            }
        }
        other => panic!("unexpected payload {:?}", other),
    }
}

async fn produce(shared: Arc<Mutex<Observed>>, producer: i64, count: i64) {
    for i in 0..count {
        let n = producer * 1_000_000 + i;
        let mut payload = numbered(n);
        loop {
            let offer = {
                let mut observed = shared.lock();
                let capacity = observed.session.capacity();
                let offer = observed.session.row_insert(payload).unwrap();
                assert!(observed.session.pending_len() <= capacity);
                match &offer {
                    Offer::Accepted => observed.accepted.push(n),
                    Offer::Full(_) => {
                        assert_eq!(observed.session.pending_len(), capacity);
                        observed.refused_while_full += 1;
                    }
                }
                offer
            };
            match offer {
                Offer::Accepted => break,
                Offer::Full(Request::RowInserts(back)) => {
                    assert_eq!(back, numbered(n));
                    payload = back;
                    tokio::task::yield_now().await;
                }
                Offer::Full(other) => panic!("another payload came back: {:?}", other),
            }
        }
    }
}

async fn consume(shared: Arc<Mutex<Observed>>) -> Vec<i64> {
    let mut wire = Vec::new();
    loop {
        let next = shared.lock().session.next_message();
        match next {
            Forward::Message(message) => wire.push(number_of(&message)),
            Forward::Wait => tokio::task::yield_now().await,
            Forward::Close => return wire,
        }
    }
}

fn run(capacity: usize, producers: i64, count: i64) -> (Vec<i64>, Vec<i64>, usize) {
    let client = Client::with_urls(&["db:4001"]).make_database_client().unwrap();
    let shared = Arc::new(Mutex::new(Observed {
        session: StreamInsertor::new(client, "public".to_string(), None, capacity),
        accepted: Vec::new(),
        refused_while_full: 0,
    }));
    let runtime = tokio::runtime::Builder::new_multi_thread()
        .worker_threads(4)
        .build()
        .unwrap();
    let consumer = runtime.spawn(consume(shared.clone()));
    let mut tasks = Vec::new();
    for producer in 0..producers {
        tasks.push(runtime.spawn(produce(shared.clone(), producer, count)));
    }
    for task in tasks {
        runtime.block_on(task).unwrap();
    }
    shared.lock().session.close();
    let wire = runtime.block_on(consumer).unwrap();
    let observed = shared.lock();
    assert_eq!(observed.session.pending_len(), 0);
    (observed.accepted.clone(), wire, observed.refused_while_full)
}

#[test]
fn many_writers_reach_the_wire_in_the_order_of_acceptance() {
    let (accepted, wire, _) = run(3, 4, 300);
    assert_eq!(accepted.len(), 1200);
    assert_eq!(wire, accepted);
}

#[test]
fn each_writer_keeps_its_own_order_on_the_wire() {
    let (_, wire, _) = run(2, 3, 200);
    for producer in 0..3i64 {
        let own: Vec<i64> = wire.iter().copied().filter(|n| n / 1_000_000 == producer).collect();
        let expected: Vec<i64> = (0..200).map(|i| producer * 1_000_000 + i).collect();
        assert_eq!(own, expected);
    }
}

#[test]
fn one_slot_is_enough_for_every_message_to_arrive() {
    let (accepted, wire, _) = run(1, 2, 100);
    assert_eq!(wire.len(), 200);
    assert_eq!(wire, accepted);
}
