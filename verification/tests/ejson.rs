//! Table-driven checks of the EJSON encoder and the compact JSON writer.

use changestream_to_redis::json::{json_to_string, JsonValue};
use changestream_to_redis::value::{BsonValue, DoubleValue};

fn encode(v: BsonValue) -> String {
    json_to_string(&v.into_ejson())
}

#[test]
fn ejson_binary_uses_standard_base64() {
    assert_eq!(
        encode(BsonValue::Binary(vec![1, 2, 3])),
        "{\"$binary\":\"AQID\"}"
    );
}

#[test]
fn ejson_binary_pads_partial_groups() {
    assert_eq!(encode(BsonValue::Binary(vec![0xff])), "{\"$binary\":\"/w==\"}");
    assert_eq!(encode(BsonValue::Binary(vec![])), "{\"$binary\":\"\"}");
}

#[test]
fn ejson_datetime_is_millis() {
    assert_eq!(
        encode(BsonValue::DateTime(1700000000123)),
        "{\"$date\":1700000000123}"
    );
    assert_eq!(encode(BsonValue::DateTime(-1)), "{\"$date\":-1}");
}

#[test]
fn ejson_decimal_is_tagged_string() {
    assert_eq!(
        encode(BsonValue::Decimal128("1.5E+3".to_string())),
        "{\"$type\":\"Decimal\",\"$value\":\"1.5E+3\"}"
    );
}

#[test]
fn ejson_finite_double_is_raw_number() {
    assert_eq!(
        encode(BsonValue::Double(DoubleValue::Finite("1.5".to_string()))),
        "1.5"
    );
}

#[test]
fn ejson_infinities_keep_the_wire_spelling() {
    assert_eq!(
        encode(BsonValue::Double(DoubleValue::PosInfinity)),
        "{\"$InfNaN\":1.0}"
    );
    assert_eq!(
        encode(BsonValue::Double(DoubleValue::NegInfinity)),
        "{\"$InfNaN\":-1.0}"
    );
}

#[test]
fn ejson_nan_uses_lowercase_n_spelling() {
    assert_eq!(
        encode(BsonValue::Double(DoubleValue::NotANumber)),
        "{\"$InfNan\":0}"
    );
}

#[test]
fn ejson_object_id_is_lowercase_hex() {
    assert_eq!(
        encode(BsonValue::ObjectId(vec![
            0x01, 0x23, 0x45, 0x67, 0x89, 0xab, 0xcd, 0xef, 0x01, 0x23, 0x45, 0x67
        ])),
        "{\"$type\":\"oid\",\"$value\":\"0123456789abcdef01234567\"}"
    );
}

#[test]
fn ejson_regex_keeps_pattern_then_flags() {
    assert_eq!(
        encode(BsonValue::Regex("^a.*b$".to_string(), "i".to_string())),
        "{\"$regexp\":\"^a.*b$\",\"$flags\":\"i\"}"
    );
}

#[test]
fn ejson_array_encodes_elements_in_order() {
    assert_eq!(
        encode(BsonValue::Array(vec![
            BsonValue::Int32(1),
            BsonValue::Text("x".to_string()),
            BsonValue::Null,
        ])),
        "[1,\"x\",null]"
    );
    assert_eq!(encode(BsonValue::Array(vec![])), "[]");
}

#[test]
fn ejson_document_preserves_key_order() {
    assert_eq!(
        encode(BsonValue::Document(vec![
            ("z".to_string(), BsonValue::Int32(1)),
            ("a".to_string(), BsonValue::Int32(2)),
            ("m".to_string(), BsonValue::Boolean(true)),
        ])),
        "{\"z\":1,\"a\":2,\"m\":true}"
    );
    assert_eq!(encode(BsonValue::Document(vec![])), "{}");
}

#[test]
fn ejson_scalars_are_native_json() {
    assert_eq!(encode(BsonValue::Boolean(false)), "false");
    assert_eq!(encode(BsonValue::Int32(-42)), "-42");
    assert_eq!(encode(BsonValue::Int64(i64::MIN)), "-9223372036854775808");
    assert_eq!(encode(BsonValue::Int64(i64::MAX)), "9223372036854775807");
    assert_eq!(encode(BsonValue::Null), "null");
    assert_eq!(encode(BsonValue::Text("hi".to_string())), "\"hi\"");
}

#[test]
fn ejson_unrecognized_variant_becomes_null() {
    assert_eq!(encode(BsonValue::Other), "null");
}

#[test]
fn ejson_nested_structures_round_trip() {
    let v = BsonValue::Document(vec![
        (
            "items".to_string(),
            BsonValue::Array(vec![BsonValue::Document(vec![(
                "_id".to_string(),
                BsonValue::ObjectId(vec![0xaa; 12]),
            )])]),
        ),
        ("when".to_string(), BsonValue::DateTime(5)),
    ]);
    assert_eq!(
        encode(v),
        "{\"items\":[{\"_id\":{\"$type\":\"oid\",\"$value\":\"aaaaaaaaaaaaaaaaaaaaaaaa\"}}],\"when\":{\"$date\":5}}"
    );
}

#[test]
fn json_writer_escapes_like_serde_json() {
    let tricky = "a\"b\\c\u{8}\u{9}\u{a}\u{c}\u{d}\u{1f}\u{0}é✓";
    let ours = json_to_string(&JsonValue::Text(tricky.to_string()));
    let theirs = serde_json::to_string(&serde_json::Value::String(tricky.to_string())).unwrap();
    assert_eq!(ours, theirs);
    assert_eq!(
        ours,
        "\"a\\\"b\\\\c\\b\\t\\n\\f\\r\\u001f\\u0000é✓\""
    );
}

#[test]
fn json_writer_matches_serde_json_on_a_document() {
    let v = BsonValue::Document(vec![
        ("b".to_string(), BsonValue::Int64(-7)),
        ("a".to_string(), BsonValue::Text("x\ny".to_string())),
        (
            "c".to_string(),
            BsonValue::Array(vec![BsonValue::Boolean(true), BsonValue::Null]),
        ),
    ]);
    let ours = encode(v);
    let theirs: serde_json::Value = serde_json::from_str(&ours).unwrap();
    assert_eq!(serde_json::to_string(&theirs).unwrap(), ours);
}
