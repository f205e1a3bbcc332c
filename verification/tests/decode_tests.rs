//! Decoding pipeline: framing, formats, stamping, and error isolation.

use source_runtime::decode::{
    decode_payload, DecodeReason, DecodingFormat, FramingStrategy,
};
use source_runtime::event::{EventKind, Value};

fn field(name: &str, value: Value) -> (String, Value) {
    (name.to_string(), value)
}

#[test]
fn bytes_whole_body_yields_one_log_event() {
    let payload = b"hello log".to_vec();
    let out = decode_payload(
        &payload,
        FramingStrategy::WholeBody,
        DecodingFormat::Bytes,
        "http_scrape",
    );
    assert_eq!(out.errors.len(), 0);
    assert_eq!(out.events.len(), 1);
    let ev = &out.events[0];
    assert_eq!(ev.kind, EventKind::Log);
    assert_eq!(
        ev.fields,
        vec![
            field("body", Value::Bytes(b"hello log".to_vec())),
            field("source_type", Value::Str("http_scrape".to_string())),
        ]
    );
}

#[test]
fn bytes_empty_payload_yields_nothing() {
    let payload: Vec<u8> = Vec::new();
    let out = decode_payload(
        &payload,
        FramingStrategy::WholeBody,
        DecodingFormat::Bytes,
        "http_scrape",
    );
    assert!(out.events.is_empty());
    assert!(out.errors.is_empty());
}

#[test]
fn json_object_yields_log_with_mirrored_fields() {
    let payload = br#"{"a":1}"#.to_vec();
    let out = decode_payload(
        &payload,
        FramingStrategy::WholeBody,
        DecodingFormat::Json,
        "http_scrape",
    );
    assert_eq!(out.errors.len(), 0);
    assert_eq!(out.events.len(), 1);
    let ev = &out.events[0];
    assert_eq!(ev.kind, EventKind::Log);
    assert_eq!(
        ev.fields,
        vec![
            field("a", Value::Num("1".to_string())),
            field("source_type", Value::Str("http_scrape".to_string())),
        ]
    );
}

#[test]
fn malformed_json_yields_zero_events_one_error() {
    let payload = br#"{"a":"#.to_vec();
    let out = decode_payload(
        &payload,
        FramingStrategy::WholeBody,
        DecodingFormat::Json,
        "http_scrape",
    );
    assert_eq!(out.events.len(), 0);
    assert_eq!(out.errors.len(), 1);
    assert_eq!(out.errors[0].reason, DecodeReason::InvalidJson);
    assert_eq!(out.errors[0].excerpt, Some(payload));
}

#[test]
fn json_scalar_document_becomes_body_field() {
    let payload = b"42".to_vec();
    let out = decode_payload(
        &payload,
        FramingStrategy::WholeBody,
        DecodingFormat::Json,
        "http_scrape",
    );
    assert_eq!(out.events.len(), 1);
    assert_eq!(
        out.events[0].fields,
        vec![
            field("body", Value::Num("42".to_string())),
            field("source_type", Value::Str("http_scrape".to_string())),
        ]
    );
}

#[test]
fn json_nested_values_keep_rendered_text() {
    let payload = br#"{"a":{"b":1},"c":[1,2],"d":"x","e":null,"f":true}"#.to_vec();
    let out = decode_payload(
        &payload,
        FramingStrategy::WholeBody,
        DecodingFormat::Json,
        "http_scrape",
    );
    assert_eq!(out.events.len(), 1);
    let fields = &out.events[0].fields;
    assert_eq!(fields[0], field("a", Value::Composite("{\"b\":1}".to_string())));
    assert_eq!(fields[1], field("c", Value::Composite("[1,2]".to_string())));
    assert_eq!(fields[2], field("d", Value::Str("x".to_string())));
    assert_eq!(fields[3], field("e", Value::Null));
    assert_eq!(fields[4], field("f", Value::Bool(true)));
}

#[test]
fn document_source_type_member_is_overridden_by_stamp() {
    let payload = br#"{"source_type":"impostor","z":1}"#.to_vec();
    let out = decode_payload(
        &payload,
        FramingStrategy::WholeBody,
        DecodingFormat::Json,
        "http_scrape",
    );
    assert_eq!(out.events.len(), 1);
    assert_eq!(
        out.events[0].fields,
        vec![
            field("z", Value::Num("1".to_string())),
            field("source_type", Value::Str("http_scrape".to_string())),
        ]
    );
}

#[test]
fn newline_framing_splits_nonempty_runs() {
    let payload = b"one\ntwo\n\nthree".to_vec();
    let out = decode_payload(
        &payload,
        FramingStrategy::NewlineDelimited,
        DecodingFormat::Bytes,
        "http_scrape",
    );
    assert_eq!(out.errors.len(), 0);
    assert_eq!(out.events.len(), 3);
    assert_eq!(out.events[0].fields[0], field("body", Value::Bytes(b"one".to_vec())));
    assert_eq!(out.events[1].fields[0], field("body", Value::Bytes(b"two".to_vec())));
    assert_eq!(out.events[2].fields[0], field("body", Value::Bytes(b"three".to_vec())));
}

#[test]
fn length_prefixed_framing_parses_records() {
    let mut payload: Vec<u8> = Vec::new();
    payload.extend_from_slice(&[0, 0, 0, 3]);
    payload.extend_from_slice(b"abc");
    payload.extend_from_slice(&[0, 0, 0, 1]);
    payload.extend_from_slice(b"z");
    let out = decode_payload(
        &payload,
        FramingStrategy::LengthPrefixed,
        DecodingFormat::Bytes,
        "http_scrape",
    );
    assert_eq!(out.errors.len(), 0);
    assert_eq!(out.events.len(), 2);
    assert_eq!(out.events[0].fields[0], field("body", Value::Bytes(b"abc".to_vec())));
    assert_eq!(out.events[1].fields[0], field("body", Value::Bytes(b"z".to_vec())));
}

#[test]
fn length_prefix_overrun_is_error_for_tail_only() {
    let mut payload: Vec<u8> = Vec::new();
    payload.extend_from_slice(&[0, 0, 0, 3]);
    payload.extend_from_slice(b"abc");
    payload.extend_from_slice(&[0, 0, 0, 9]);
    payload.extend_from_slice(b"x");
    let out = decode_payload(
        &payload,
        FramingStrategy::LengthPrefixed,
        DecodingFormat::Bytes,
        "http_scrape",
    );
    assert_eq!(out.events.len(), 1);
    assert_eq!(out.events[0].fields[0], field("body", Value::Bytes(b"abc".to_vec())));
    assert_eq!(out.errors.len(), 1);
    assert_eq!(out.errors[0].reason, DecodeReason::MalformedFraming);
    assert_eq!(out.errors[0].excerpt, Some(vec![0, 0, 0, 9, b'x']));
}

#[test]
fn truncated_length_prefix_is_error() {
    let payload = vec![0u8, 0u8];
    let out = decode_payload(
        &payload,
        FramingStrategy::LengthPrefixed,
        DecodingFormat::Bytes,
        "http_scrape",
    );
    assert_eq!(out.events.len(), 0);
    assert_eq!(out.errors.len(), 1);
    assert_eq!(out.errors[0].reason, DecodeReason::MalformedFraming);
}

#[test]
fn native_json_log_record() {
    let payload = br#"{"log":{"message":"hi"}}"#.to_vec();
    let out = decode_payload(
        &payload,
        FramingStrategy::WholeBody,
        DecodingFormat::NativeJson,
        "http_scrape",
    );
    assert_eq!(out.errors.len(), 0);
    assert_eq!(out.events.len(), 1);
    assert_eq!(out.events[0].kind, EventKind::Log);
    assert_eq!(
        out.events[0].fields,
        vec![
            field("message", Value::Str("hi".to_string())),
            field("source_type", Value::Str("http_scrape".to_string())),
        ]
    );
}

#[test]
fn native_json_metric_record() {
    let payload = br#"{"metric":{"name":"requests","value":1}}"#.to_vec();
    let out = decode_payload(
        &payload,
        FramingStrategy::WholeBody,
        DecodingFormat::NativeJson,
        "http_scrape",
    );
    assert_eq!(out.errors.len(), 0);
    assert_eq!(out.events.len(), 1);
    assert_eq!(out.events[0].kind, EventKind::Metric);
    let last = out.events[0].fields.last().unwrap();
    assert_eq!(*last, field("source_type", Value::Str("http_scrape".to_string())));
}

#[test]
fn native_json_trace_record() {
    let payload = br#"{"trace":{"span":"abc"}}"#.to_vec();
    let out = decode_payload(
        &payload,
        FramingStrategy::WholeBody,
        DecodingFormat::NativeJson,
        "http_scrape",
    );
    assert_eq!(out.errors.len(), 0);
    assert_eq!(out.events.len(), 1);
    assert_eq!(out.events[0].kind, EventKind::Trace);
}

#[test]
fn native_missing_discriminator() {
    for payload in [
        br#"{"a":1,"b":2}"#.to_vec(),
        br#"{"widget":{"x":1}}"#.to_vec(),
        br#"[1,2]"#.to_vec(),
        b"5".to_vec(),
    ] {
        let out = decode_payload(
            &payload,
            FramingStrategy::WholeBody,
            DecodingFormat::NativeJson,
            "http_scrape",
        );
        assert_eq!(out.events.len(), 0);
        assert_eq!(out.errors.len(), 1);
        assert_eq!(out.errors[0].reason, DecodeReason::MissingDiscriminator);
    }
}

#[test]
fn native_schema_violation() {
    for payload in [br#"{"log":5}"#.to_vec(), br#"{"log":[1]}"#.to_vec()] {
        let out = decode_payload(
            &payload,
            FramingStrategy::WholeBody,
            DecodingFormat::NativeJson,
            "http_scrape",
        );
        assert_eq!(out.events.len(), 0);
        assert_eq!(out.errors.len(), 1);
        assert_eq!(out.errors[0].reason, DecodeReason::SchemaViolation);
    }
}
