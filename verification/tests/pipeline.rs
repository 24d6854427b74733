//! The aggregation pipeline and cursor options, checked against the exact
//! documents the driver should send.

use changestream_to_redis::config::{Config, RawConfig};
use changestream_to_redis::json::json_to_string;
use changestream_to_redis::mongo::{change_stream_options, create_pipeline, FullDocumentKind};
use changestream_to_redis::value::BsonValue;

fn raw_with_urls() -> RawConfig {
    RawConfig {
        debug: None,
        deduplication: None,
        excluded_collections: None,
        full_document: None,
        full_document_collections: None,
        metrics_address: None,
        mongo_url: Some("mongodb://localhost/app".to_string()),
        mongo_batch_size: None,
        mongo_max_await_time_millis: None,
        namespaces: None,
        redis_batch_size: None,
        redis_connection_retry_count: None,
        redis_connection_timeout_secs: None,
        redis_max_delay_secs: None,
        redis_publish_retry_count: None,
        redis_queue_size: None,
        redis_response_timeout_secs: None,
        redis_url: Some("redis://localhost".to_string()),
    }
}

fn as_json(v: BsonValue) -> String {
    json_to_string(&v.into_ejson())
}

const BASE_MATCH: &str = "\"documentKey._id\":{\"$type\":[\"objectId\",\"string\"]},\
\"operationType\":{\"$in\":[\"delete\",\"insert\",\"replace\",\"update\"]}";

#[test]
fn pipeline_match_selects_supported_ids_and_operations() {
    let config = Config::build(raw_with_urls()).unwrap();
    let (matcher, _) = create_pipeline(&config, true);
    assert_eq!(as_json(matcher), format!("{{\"$match\":{{{}}}}}", BASE_MATCH));
}

#[test]
fn pipeline_match_excludes_configured_collections() {
    let mut raw = raw_with_urls();
    raw.excluded_collections = Some("jobs,logs".to_string());
    let config = Config::build(raw).unwrap();
    let (matcher, _) = create_pipeline(&config, true);
    assert_eq!(
        as_json(matcher),
        format!(
            "{{\"$match\":{{{},\"ns.coll\":{{\"$nin\":[\"jobs\",\"logs\"]}}}}}}",
            BASE_MATCH
        )
    );
}

#[test]
fn pipeline_match_splits_collections_between_streams() {
    let mut raw = raw_with_urls();
    raw.full_document_collections = Some("tasks".to_string());
    let config = Config::build(raw).unwrap();
    let (primary, _) = create_pipeline(&config, true);
    let (secondary, _) = create_pipeline(&config, false);
    assert_eq!(
        as_json(primary),
        format!(
            "{{\"$match\":{{{},\"ns.coll\":{{\"$in\":[\"tasks\"]}}}}}}",
            BASE_MATCH
        )
    );
    assert_eq!(
        as_json(secondary),
        format!(
            "{{\"$match\":{{{},\"ns.coll\":{{\"$nin\":[\"tasks\"]}}}}}}",
            BASE_MATCH
        )
    );
}

#[test]
fn pipeline_full_document_collections_supersede_exclusions() {
    let mut raw = raw_with_urls();
    raw.excluded_collections = Some("jobs".to_string());
    raw.full_document_collections = Some("tasks".to_string());
    let config = Config::build(raw).unwrap();
    let (matcher, _) = create_pipeline(&config, true);
    assert_eq!(
        as_json(matcher),
        format!(
            "{{\"$match\":{{{},\"ns.coll\":{{\"$in\":[\"tasks\"]}}}}}}",
            BASE_MATCH
        )
    );
}

const SWITCH: &str = "\"e\":{\"$switch\":{\"branches\":[\
{\"case\":{\"$eq\":[\"$operationType\",\"delete\"]},\"then\":\"r\"},\
{\"case\":{\"$eq\":[\"$operationType\",\"insert\"]},\"then\":\"i\"}],\"default\":\"u\"}}";

#[test]
fn pipeline_project_emits_the_wire_shape() {
    let config = Config::build(raw_with_urls()).unwrap();
    let (_, project) = create_pipeline(&config, true);
    let expected = format!(
        "{{\"$project\":{{\"c\":\"$ns.coll\",\"d\":\"$ns.db\",\
\"i\":{{\"$toString\":\"$documentKey._id\"}},\"n\":{{\"$literal\":\"\"}},\
\"o\":{{{},\"d\":{{\"_id\":\"$documentKey._id\"}},\"f\":[]}},\"t\":\"$clusterTime\"}}}}",
        SWITCH
    );
    assert_eq!(as_json(project), expected);
}

#[test]
fn pipeline_project_requests_full_document_on_primary() {
    let mut raw = raw_with_urls();
    raw.full_document = Some("updateLookup".to_string());
    let config = Config::build(raw).unwrap();
    let (_, primary) = create_pipeline(&config, true);
    let text = as_json(primary);
    assert!(text.contains(
        "\"d\":{\"$ifNull\":[\"$fullDocument\",{\"$ifNull\":[\"$fullDocumentBeforeChange\",\
{\"_id\":\"$documentKey._id\"}]}]}"
    ));
    let (_, secondary) = create_pipeline(&config, false);
    assert!(as_json(secondary).contains("\"d\":{\"_id\":\"$documentKey._id\"},\"f\":[]"));
}

#[test]
fn pipeline_namespaces_build_the_reduce_fold() {
    let mut raw = raw_with_urls();
    raw.namespaces = Some("tasks.owner".to_string());
    let config = Config::build(raw).unwrap();
    let (_, project) = create_pipeline(&config, true);
    let text = as_json(project);
    let expected_n = "\"n\":{\"$reduce\":{\
\"input\":{\"$cond\":{\"if\":{\"$eq\":[\"$ns.coll\",\"tasks\"]},\
\"then\":{\"$let\":{\"vars\":{\"v\":{\"$ifNull\":[\"$fullDocument.owner\",\
{\"$ifNull\":[\"$fullDocumentBeforeChange.owner\",[]]}]}},\
\"in\":{\"$cond\":{\"if\":{\"$isArray\":\"$$v\"},\"then\":\"$$v\",\"else\":[\"$$v\"]}}}},\
\"else\":[]}},\
\"initialValue\":{\"$literal\":\"\"},\
\"in\":{\"$concat\":[\"$$value\",\",\",\"owner::\",{\"$toString\":\"$$this\"}]}}}";
    assert!(text.contains(expected_n), "got: {text}");
}

#[test]
fn pipeline_namespaces_nest_in_configuration_order() {
    let mut raw = raw_with_urls();
    raw.namespaces = Some("tasks.owner,posts.tags".to_string());
    let config = Config::build(raw).unwrap();
    let (_, project) = create_pipeline(&config, true);
    let text = as_json(project);
    // The later entry's $reduce wraps the earlier one as its initialValue.
    let tags = text.find("posts").unwrap();
    let owner = text.find("tasks\"]").unwrap();
    assert!(tags < owner, "got: {text}");
}

#[test]
fn options_primary_uses_configured_full_document() {
    let mut raw = raw_with_urls();
    raw.full_document = Some("required".to_string());
    let config = Config::build(raw).unwrap();
    let opts = change_stream_options(&config, true);
    assert!(matches!(opts.full_document, Some(FullDocumentKind::Required)));
    assert!(!opts.full_document_before_change_when_available);
}

#[test]
fn options_namespaces_imply_update_lookup_on_primary() {
    let mut raw = raw_with_urls();
    raw.namespaces = Some("tasks.owner".to_string());
    let config = Config::build(raw).unwrap();
    let opts = change_stream_options(&config, true);
    assert!(matches!(
        opts.full_document,
        Some(FullDocumentKind::UpdateLookup)
    ));
    assert!(opts.full_document_before_change_when_available);
}

#[test]
fn options_secondary_requests_no_full_document() {
    let mut raw = raw_with_urls();
    raw.full_document = Some("updateLookup".to_string());
    raw.full_document_collections = Some("tasks".to_string());
    raw.namespaces = Some("tasks.owner".to_string());
    let config = Config::build(raw).unwrap();
    let opts = change_stream_options(&config, false);
    assert!(opts.full_document.is_none());
    assert!(opts.full_document_before_change_when_available);
}
