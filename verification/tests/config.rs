//! Configuration parsing: numbers, lists, namespaces, defaults and errors.

use changestream_to_redis::config::{parse_full_document, parse_namespaces, parse_u64, Config,
    ConfigError, RawConfig};
use changestream_to_redis::csv::{split_csv, split_nonempty};
use changestream_to_redis::mongo::FullDocumentKind;

fn raw_with_urls() -> RawConfig {
    RawConfig {
        debug: None,
        deduplication: None,
        excluded_collections: None,
        full_document: None,
        full_document_collections: None,
        metrics_address: None,
        mongo_url: Some("mongodb://localhost/app".to_string()),
        mongo_batch_size: None,
        mongo_max_await_time_millis: None,
        namespaces: None,
        redis_batch_size: None,
        redis_connection_retry_count: None,
        redis_connection_timeout_secs: None,
        redis_max_delay_secs: None,
        redis_publish_retry_count: None,
        redis_queue_size: None,
        redis_response_timeout_secs: None,
        redis_url: Some("redis://localhost".to_string()),
    }
}

#[test]
fn parse_u64_accepts_plain_decimals() {
    assert_eq!(parse_u64(&"0".to_string()), Some(0));
    assert_eq!(parse_u64(&"1024".to_string()), Some(1024));
    assert_eq!(
        parse_u64(&"18446744073709551615".to_string()),
        Some(u64::MAX)
    );
}

#[test]
fn parse_u64_rejects_bad_input() {
    assert_eq!(parse_u64(&"".to_string()), None);
    assert_eq!(parse_u64(&"12a".to_string()), None);
    assert_eq!(parse_u64(&"-3".to_string()), None);
    assert_eq!(parse_u64(&" 7".to_string()), None);
    assert_eq!(parse_u64(&"18446744073709551616".to_string()), None);
}

#[test]
fn split_csv_keeps_empty_segments() {
    let parts = split_csv(&"a,b,,c".to_string());
    assert_eq!(parts, vec!["a", "b", "", "c"]);
    assert_eq!(split_csv(&"".to_string()), vec![""]);
    assert_eq!(split_csv(&",".to_string()), vec!["", ""]);
}

#[test]
fn split_nonempty_drops_empty_segments() {
    let parts = split_nonempty(&",u1,,u2,".to_string());
    assert_eq!(parts, vec!["u1", "u2"]);
    assert_eq!(split_nonempty(&"".to_string()), Vec::<String>::new());
}

#[test]
fn namespaces_parse_to_pairs() {
    let pairs = parse_namespaces(&"tasks.owner,posts.tags".to_string()).unwrap();
    assert_eq!(
        pairs,
        vec![
            ("tasks".to_string(), "owner".to_string()),
            ("posts".to_string(), "tags".to_string()),
        ]
    );
}

#[test]
fn namespaces_reject_entry_without_dot() {
    assert_eq!(
        parse_namespaces(&"tasks.owner,nodot".to_string()),
        Err("nodot".to_string())
    );
}

#[test]
fn namespaces_reject_two_dots() {
    assert_eq!(
        parse_namespaces(&"a.b.c".to_string()),
        Err("a.b.c".to_string())
    );
}

#[test]
fn namespaces_reject_empty_sides() {
    assert_eq!(parse_namespaces(&".owner".to_string()), Err(".owner".to_string()));
    assert_eq!(parse_namespaces(&"tasks.".to_string()), Err("tasks.".to_string()));
    assert_eq!(parse_namespaces(&".".to_string()), Err(".".to_string()));
}

#[test]
fn full_document_modes_parse_by_name() {
    assert!(matches!(
        parse_full_document(&"updateLookup".to_string()),
        FullDocumentKind::UpdateLookup
    ));
    assert!(matches!(
        parse_full_document(&"whenAvailable".to_string()),
        FullDocumentKind::WhenAvailable
    ));
    assert!(matches!(
        parse_full_document(&"required".to_string()),
        FullDocumentKind::Required
    ));
    match parse_full_document(&"somethingElse".to_string()) {
        FullDocumentKind::Other(s) => assert_eq!(s, "somethingElse"),
        _ => panic!("expected pass-through"),
    }
}

#[test]
fn build_applies_documented_defaults() {
    let config = Config::build(raw_with_urls()).unwrap();
    assert!(!config.debug);
    assert_eq!(config.deduplication, None);
    assert_eq!(config.redis_batch_size, 1);
    assert_eq!(config.redis_queue_size, 1024);
    assert_eq!(config.redis_response_timeout_secs, 5);
    assert_eq!(config.redis_connection_timeout_secs, 2);
    assert_eq!(config.redis_connection_retry_count, 6);
    assert_eq!(config.redis_publish_retry_count, 0);
    assert_eq!(config.redis_max_delay_secs, None);
    assert_eq!(config.mongo_url, "mongodb://localhost/app");
    assert_eq!(config.redis_url, "redis://localhost");
}

#[test]
fn build_parses_set_values() {
    let mut raw = raw_with_urls();
    raw.debug = Some("1".to_string());
    raw.deduplication = Some("60".to_string());
    raw.excluded_collections = Some("jobs,logs".to_string());
    raw.full_document_collections = Some("tasks".to_string());
    raw.namespaces = Some("tasks.owner".to_string());
    raw.redis_batch_size = Some("16".to_string());
    let config = Config::build(raw).unwrap();
    assert!(config.debug);
    assert_eq!(config.deduplication, Some(60));
    assert_eq!(
        config.excluded_collections,
        Some(vec!["jobs".to_string(), "logs".to_string()])
    );
    assert_eq!(
        config.full_document_collections,
        Some(vec!["tasks".to_string()])
    );
    assert_eq!(
        config.namespaces,
        Some(vec![("tasks".to_string(), "owner".to_string())])
    );
    assert_eq!(config.redis_batch_size, 16);
}

#[test]
fn build_requires_mongo_url() {
    let mut raw = raw_with_urls();
    raw.mongo_url = None;
    let err = Config::build(raw).unwrap_err();
    assert!(matches!(err, ConfigError::MissingMongoUrl));
    assert_eq!(err.message(), "MONGO_URL is required");
}

#[test]
fn build_requires_redis_url() {
    let mut raw = raw_with_urls();
    raw.redis_url = None;
    let err = Config::build(raw).unwrap_err();
    assert!(matches!(err, ConfigError::MissingRedisUrl));
    assert_eq!(err.message(), "REDIS_URL is required");
}

#[test]
fn build_rejects_bad_number_with_its_name() {
    let mut raw = raw_with_urls();
    raw.deduplication = Some("soon".to_string());
    let err = Config::build(raw).unwrap_err();
    match &err {
        ConfigError::InvalidNumber(name) => assert_eq!(name, "DEDUPLICATION"),
        _ => panic!("expected InvalidNumber"),
    }
    assert_eq!(err.message(), "DEDUPLICATION must be a decimal number");
}

#[test]
fn build_rejects_bad_namespaces_entry() {
    let mut raw = raw_with_urls();
    raw.namespaces = Some("tasks.owner,broken".to_string());
    let err = Config::build(raw).unwrap_err();
    match &err {
        ConfigError::InvalidNamespaces(entry) => assert_eq!(entry, "broken"),
        _ => panic!("expected InvalidNamespaces"),
    }
    assert_eq!(err.message(), "invalid NAMESPACES entry: broken");
}
