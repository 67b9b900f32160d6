use mqtt_session::decode::{decode_message, json2command, DecodeOutcome};
use mqtt_session::json::JsonValue;

fn forwarded_kind(outcome: DecodeOutcome) -> String {
    match outcome {
        DecodeOutcome::Forwarded(c) => c.kind,
        other => panic!("expected a forwarded command, got {:?}", other),
    }
}

#[test]
fn canonical_payload_forwards_one_command() {
    let outcome = decode_message("command/inbox//abc", &b"{\"kind\":\"ping\"}".to_vec());
    assert_eq!(forwarded_kind(outcome), "ping");
}

#[test]
fn canonical_payload_with_whitespace_forwards() {
    let outcome = decode_message(
        "command/inbox//dev",
        &b"  { \"kind\" : \"reboot\" }  ".to_vec(),
    );
    assert_eq!(forwarded_kind(outcome), "reboot");
}

#[test]
fn canonical_payload_never_needs_the_loose_tier() {
    // The loose mapping would yield nothing here (no `command` member), yet
    // the canonical payload is still forwarded: the strict tier decided.
    let outcome = decode_message("command/inbox//abc", &b"{\"kind\":\"ping\"}".to_vec());
    assert!(matches!(outcome, DecodeOutcome::Forwarded(_)));
}

#[test]
fn legacy_payload_forwards_through_loose_tier() {
    // Valid structured data that violates the canonical schema; the loose
    // mapping yields a command, whose metadata is discarded.
    let outcome = decode_message(
        "command/inbox//abc",
        &b"{\"command\":\"ping\",\"source\":\"legacy\"}".to_vec(),
    );
    assert_eq!(forwarded_kind(outcome), "ping");
}

#[test]
fn legacy_payload_without_command_member_is_dropped() {
    let outcome = decode_message("command/inbox//abc", &b"{\"cmd\":\"ping\"}".to_vec());
    assert_eq!(outcome, DecodeOutcome::Dropped);
}

#[test]
fn non_string_command_member_is_dropped() {
    let outcome = decode_message("command/inbox//abc", &b"{\"command\":7}".to_vec());
    assert_eq!(outcome, DecodeOutcome::Dropped);
}

#[test]
fn unparseable_payload_is_dropped() {
    let outcome = decode_message("command/inbox//abc", &b"not json at all".to_vec());
    assert_eq!(outcome, DecodeOutcome::Dropped);
}

#[test]
fn empty_payload_is_dropped() {
    let outcome = decode_message("command/inbox//abc", &Vec::new());
    assert_eq!(outcome, DecodeOutcome::Dropped);
}

#[test]
fn telemetry_topic_is_ignored() {
    let outcome = decode_message("telemetry/data", &b"{\"kind\":\"ping\"}".to_vec());
    assert_eq!(outcome, DecodeOutcome::Ignored);
}

#[test]
fn single_separator_topic_is_ignored() {
    // The filter is the literal double-separator prefix.
    let outcome = decode_message("command/inbox/abc", &b"{\"kind\":\"ping\"}".to_vec());
    assert_eq!(outcome, DecodeOutcome::Ignored);
}

#[test]
fn bare_prefix_topic_is_considered() {
    let outcome = decode_message("command/inbox//", &b"{\"kind\":\"ping\"}".to_vec());
    assert_eq!(forwarded_kind(outcome), "ping");
}

#[test]
fn empty_topic_is_ignored() {
    let outcome = decode_message("", &b"{\"kind\":\"ping\"}".to_vec());
    assert_eq!(outcome, DecodeOutcome::Ignored);
}

#[test]
fn extra_member_falls_to_loose_tier_and_drops() {
    // Two members violate the canonical single-member schema, and the loose
    // shape has no `command` member either.
    let outcome = decode_message(
        "command/inbox//abc",
        &b"{\"kind\":\"ping\",\"extra\":1}".to_vec(),
    );
    assert_eq!(outcome, DecodeOutcome::Dropped);
}

#[test]
fn canonical_empty_kind_forwards_empty() {
    let outcome = decode_message("command/inbox//abc", &b"{\"kind\":\"\"}".to_vec());
    assert_eq!(forwarded_kind(outcome), "");
}

#[test]
fn json2command_reads_command_and_source() {
    let doc = JsonValue::Obj(vec![
        ("command".to_string(), JsonValue::Str("go".to_string())),
        ("source".to_string(), JsonValue::Str("older producer".to_string())),
    ]);
    let (meta, command) = json2command(&doc).expect("legacy shape should map");
    assert_eq!(command.kind, "go");
    assert_eq!(meta.source.as_deref(), Some("older producer"));
}

#[test]
fn json2command_takes_first_command_member() {
    let doc = JsonValue::Obj(vec![
        ("command".to_string(), JsonValue::Str("first".to_string())),
        ("command".to_string(), JsonValue::Str("second".to_string())),
    ]);
    let (_, command) = json2command(&doc).expect("legacy shape should map");
    assert_eq!(command.kind, "first");
}

#[test]
fn escaped_kind_falls_out_of_the_canonical_schema() {
    // A backslash cannot stand in a canonical kind string; the payload is
    // still valid structured data, but the loose shape yields nothing.
    let outcome = decode_message("command/inbox//abc", &b"{\"kind\":\"a\\\\b\"}".to_vec());
    assert_eq!(outcome, DecodeOutcome::Dropped);
}

#[test]
fn non_string_kind_is_not_canonical() {
    let outcome = decode_message("command/inbox//abc", &b"{\"kind\":7}".to_vec());
    assert_eq!(outcome, DecodeOutcome::Dropped);
}

#[test]
fn legacy_payload_with_nested_members_forwards() {
    // Exercises the structured model on nesting, arrays and numbers beyond
    // what the loose mapping reads.
    let outcome = decode_message(
        "command/inbox//abc",
        &b"{\"command\":\"calibrate\",\"extra\":{\"a\":[1,2,3.5],\"b\":null,\"c\":true}}"
            .to_vec(),
    );
    assert_eq!(forwarded_kind(outcome), "calibrate");
}

#[test]
fn json2command_rejects_non_objects() {
    assert!(json2command(&JsonValue::Str("ping".to_string())).is_none());
    assert!(json2command(&JsonValue::Null).is_none());
    assert!(json2command(&JsonValue::Arr(Vec::new())).is_none());
}
