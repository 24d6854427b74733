//! The publisher: fan-out, ordering, the script invocation layout,
//! deduplication and the retry policy.

use changestream_to_redis::config::{Config, RawConfig};
use changestream_to_redis::event::{Event, Timestamp};
use changestream_to_redis::redis::{batch_publishes, event_publishes, retry_action, run_deduplicated,
    AttemptOutcome, DedupState, Redis, RetryAction, SCRIPT_WITHOUT_DEDUPLICATION,
    SCRIPT_WITH_DEDUPLICATION};
use changestream_to_redis::value::BsonValue;

fn raw_with_urls() -> RawConfig {
    RawConfig {
        debug: None,
        deduplication: None,
        excluded_collections: None,
        full_document: None,
        full_document_collections: None,
        metrics_address: None,
        mongo_url: Some("mongodb://localhost/app".to_string()),
        mongo_batch_size: None,
        mongo_max_await_time_millis: None,
        namespaces: None,
        redis_batch_size: None,
        redis_connection_retry_count: None,
        redis_connection_timeout_secs: None,
        redis_max_delay_secs: None,
        redis_publish_retry_count: None,
        redis_queue_size: None,
        redis_response_timeout_secs: None,
        redis_url: Some("redis://localhost".to_string()),
    }
}

fn insert_op(id: BsonValue, title: &str) -> BsonValue {
    BsonValue::Document(vec![
        ("e".to_string(), BsonValue::Text("i".to_string())),
        (
            "d".to_string(),
            BsonValue::Document(vec![
                ("_id".to_string(), id),
                ("title".to_string(), BsonValue::Text(title.to_string())),
            ]),
        ),
        ("f".to_string(), BsonValue::Array(vec![])),
    ])
}

fn delete_op(id: BsonValue) -> BsonValue {
    BsonValue::Document(vec![
        ("e".to_string(), BsonValue::Text("r".to_string())),
        (
            "d".to_string(),
            BsonValue::Document(vec![("_id".to_string(), id)]),
        ),
        ("f".to_string(), BsonValue::Array(vec![])),
    ])
}

fn event(document_id: &str, namespaces: &str, operation: BsonValue) -> Event {
    Event {
        collection: "tasks".to_string(),
        db: "app".to_string(),
        document_id: document_id.to_string(),
        event_id: format!("key-{document_id}"),
        namespaces: namespaces.to_string(),
        operation,
        timestamp: Timestamp { time: 1700000000, increment: 1 },
    }
}

#[test]
fn insert_fans_out_to_collection_and_document_channels() {
    let id = BsonValue::ObjectId(vec![0xaa; 12]);
    let e = event("aaaaaaaaaaaaaaaaaaaaaaaa", "", insert_op(id, "x"));
    let cmds = event_publishes(&e);
    let payload = "{\"e\":\"i\",\"d\":{\"_id\":{\"$type\":\"oid\",\
\"$value\":\"aaaaaaaaaaaaaaaaaaaaaaaa\"},\"title\":\"x\"},\"f\":[]}";
    assert_eq!(cmds.len(), 2);
    assert_eq!(cmds[0].channel, "app.tasks");
    assert_eq!(cmds[0].payload, payload);
    assert_eq!(cmds[1].channel, "app.tasks::aaaaaaaaaaaaaaaaaaaaaaaa");
    assert_eq!(cmds[1].payload, payload);
}

#[test]
fn delete_carries_only_the_id() {
    let id = BsonValue::ObjectId(vec![0xbb; 12]);
    let e = event("bbbbbbbbbbbbbbbbbbbbbbbb", "", delete_op(id));
    let cmds = event_publishes(&e);
    let payload = "{\"e\":\"r\",\"d\":{\"_id\":{\"$type\":\"oid\",\
\"$value\":\"bbbbbbbbbbbbbbbbbbbbbbbb\"}},\"f\":[]}";
    assert_eq!(cmds.len(), 2);
    assert_eq!(cmds[0].channel, "app.tasks");
    assert_eq!(cmds[1].channel, "app.tasks::bbbbbbbbbbbbbbbbbbbbbbbb");
    assert_eq!(cmds[0].payload, payload);
}

#[test]
fn namespaces_add_one_channel_per_segment() {
    let e = event("x", "owner::u1,owner::u2", delete_op(BsonValue::Text("x".to_string())));
    let cmds = event_publishes(&e);
    let channels: Vec<&str> = cmds.iter().map(|c| c.channel.as_str()).collect();
    assert_eq!(
        channels,
        vec!["app.tasks", "app.tasks::x", "app.owner::u1::x", "app.owner::u2::x"]
    );
}

#[test]
fn empty_namespace_segments_do_not_publish() {
    let e = event("x", ",u1,,", delete_op(BsonValue::Text("x".to_string())));
    let cmds = event_publishes(&e);
    assert_eq!(cmds.len(), 3);
    assert_eq!(cmds[2].channel, "app.u1::x");
}

#[test]
fn batches_publish_in_event_order() {
    let first = event("1", "", delete_op(BsonValue::Text("1".to_string())));
    let second = event("2", "n1", delete_op(BsonValue::Text("2".to_string())));
    let cmds = batch_publishes(&vec![first, second]);
    let channels: Vec<&str> = cmds.iter().map(|c| c.channel.as_str()).collect();
    assert_eq!(
        channels,
        vec!["app.tasks", "app.tasks::1", "app.tasks", "app.tasks::2", "app.n1::2"]
    );
}

#[test]
fn invocation_without_deduplication_uses_stride_five() {
    let publisher = Redis::new(&Config::build(raw_with_urls()).unwrap());
    let e = event("x", "n1", delete_op(BsonValue::Text("x".to_string())));
    let invocation = publisher.build_invocation(&vec![e]);
    assert!(invocation.keys.is_empty());
    assert_eq!(
        invocation.args,
        vec![
            "1".to_string(),
            "app".to_string(),
            "tasks".to_string(),
            "n1".to_string(),
            "x".to_string(),
            "{\"e\":\"r\",\"d\":{\"_id\":\"x\"},\"f\":[]}".to_string(),
        ]
    );
}

#[test]
fn invocation_with_deduplication_adds_ttl_and_keys() {
    let mut raw = raw_with_urls();
    raw.deduplication = Some("60".to_string());
    let publisher = Redis::new(&Config::build(raw).unwrap());
    let a = event("1", "", delete_op(BsonValue::Text("1".to_string())));
    let b = event("2", "", delete_op(BsonValue::Text("2".to_string())));
    let invocation = publisher.build_invocation(&vec![a, b]);
    assert_eq!(invocation.keys, vec!["key-1".to_string(), "key-2".to_string()]);
    assert_eq!(invocation.args.len(), 1 + 6 * 2);
    assert_eq!(invocation.args[0], "2");
    assert_eq!(invocation.args[1], "app");
    assert_eq!(invocation.args[6], "60");
    assert_eq!(invocation.args[7], "app");
    assert_eq!(invocation.args[12], "60");
}

#[test]
fn script_choice_follows_deduplication() {
    let without = Redis::new(&Config::build(raw_with_urls()).unwrap());
    assert_eq!(without.script_source(), SCRIPT_WITHOUT_DEDUPLICATION);
    let mut raw = raw_with_urls();
    raw.deduplication = Some("60".to_string());
    let with = Redis::new(&Config::build(raw).unwrap());
    assert_eq!(with.script_source(), SCRIPT_WITH_DEDUPLICATION);
    assert!(with.script_source().contains("SETEX"));
    assert!(!without.script_source().contains("SETEX"));
}

fn same_event() -> Event {
    event("x", "", delete_op(BsonValue::Text("x".to_string())))
}

#[test]
fn deduplication_suppresses_repeats_until_expiry() {
    let mut state = DedupState { entries: Vec::new() };

    let first = run_deduplicated(&mut state, 1000, 60, &vec![same_event()]);
    assert_eq!(first.len(), 2);

    let second = run_deduplicated(&mut state, 1030, 60, &vec![same_event()]);
    assert!(second.is_empty());

    let third = run_deduplicated(&mut state, 1060, 60, &vec![same_event()]);
    assert_eq!(third.len(), 2);
}

#[test]
fn deduplication_also_applies_within_one_batch() {
    let mut state = DedupState { entries: Vec::new() };
    let cmds = run_deduplicated(&mut state, 1000, 60, &vec![same_event(), same_event()]);
    assert_eq!(cmds.len(), 2);
}

#[test]
fn distinct_events_are_not_deduplicated() {
    let mut state = DedupState { entries: Vec::new() };
    let a = event("1", "", delete_op(BsonValue::Text("1".to_string())));
    let b = event("2", "", delete_op(BsonValue::Text("2".to_string())));
    let cmds = run_deduplicated(&mut state, 1000, 60, &vec![a, b]);
    assert_eq!(cmds.len(), 4);
}

#[test]
fn retries_happen_only_for_io_errors_within_budget() {
    assert!(matches!(
        retry_action(0, 2, &AttemptOutcome::Success),
        RetryAction::Finish
    ));
    assert!(matches!(
        retry_action(0, 2, &AttemptOutcome::OtherError),
        RetryAction::Fail
    ));
    assert!(matches!(
        retry_action(0, 2, &AttemptOutcome::IoError),
        RetryAction::Retry
    ));
    assert!(matches!(
        retry_action(1, 2, &AttemptOutcome::IoError),
        RetryAction::Retry
    ));
    assert!(matches!(
        retry_action(2, 2, &AttemptOutcome::IoError),
        RetryAction::Fail
    ));
    assert!(matches!(
        retry_action(0, 0, &AttemptOutcome::IoError),
        RetryAction::Fail
    ));
}

#[test]
fn two_io_failures_then_success_delivers_once() {
    // The loop an operator would run with a retry budget of two.
    let outcomes = [
        AttemptOutcome::IoError,
        AttemptOutcome::IoError,
        AttemptOutcome::Success,
    ];
    let mut delivered = 0;
    let mut attempt: u64 = 0;
    loop {
        let outcome = &outcomes[attempt as usize];
        if matches!(outcome, AttemptOutcome::Success) {
            delivered += 1;
        }
        match retry_action(attempt, 2, outcome) {
            RetryAction::Retry => attempt += 1,
            _ => break,
        }
    }
    assert_eq!(attempt, 2);
    assert_eq!(delivered, 1);
}

#[test]
fn debug_lines_show_collection_after_namespace() {
    let e = event("x", "u1", delete_op(BsonValue::Text("x".to_string())));
    let lines = e.debug_lines();
    let payload = "{\"e\":\"r\",\"d\":{\"_id\":\"x\"},\"f\":[]}";
    assert_eq!(
        lines,
        vec![
            format!("app.tasks {payload}"),
            format!("app.tasks::x {payload}"),
            format!("app.u1::tasks {payload}"),
        ]
    );
}
