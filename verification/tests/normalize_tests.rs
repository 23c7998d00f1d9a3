use capture::api::CaptureError;
use capture::event::EventQuery;
use capture::event::RawEvent;
use capture::json::JsonValue;

fn decode(body: &[u8]) -> Result<Vec<RawEvent>, CaptureError> {
    RawEvent::from_bytes(
        &EventQuery {
            compression: None,
            lib_version: None,
            sent_at: None,
        },
        body,
    )
}

fn parse_detail(body: &[u8]) -> String {
    match decode(body) {
        Err(CaptureError::RequestParsingError(d)) => d,
        other => panic!("expected a parse error, got {:?}", other),
    }
}

#[test]
fn single_object_yields_one_record() {
    let events = decode(br#"{"event":"e"}"#).unwrap();
    assert_eq!(events.len(), 1);
    assert_eq!(events[0].event, "e");
}

#[test]
fn array_preserves_length_and_order() {
    let events = decode(br#"[{"event":"one"},{"event":"two"},{"event":"three"}]"#).unwrap();
    assert_eq!(events.len(), 3);
    assert_eq!(events[0].event, "one");
    assert_eq!(events[1].event, "two");
    assert_eq!(events[2].event, "three");
}

#[test]
fn empty_array_yields_no_records() {
    let events = decode(b"[]").unwrap();
    assert_eq!(events.len(), 0);
}

#[test]
fn token_aliases_are_honored() {
    let events = decode(br#"{"event":"e","$token":"via-dollar"}"#).unwrap();
    assert_eq!(events[0].token.as_deref(), Some("via-dollar"));
    let events = decode(br#"{"event":"e","api_key":"via-api-key"}"#).unwrap();
    assert_eq!(events[0].token.as_deref(), Some("via-api-key"));
}

#[test]
fn duplicate_token_aliases_fail() {
    parse_detail(br#"{"event":"e","token":"a","$token":"b"}"#);
    parse_detail(br#"{"event":"e","api_key":"a","token":"b"}"#);
}

#[test]
fn set_fields_use_wire_names() {
    let events = decode(br#"{"event":"e","$set":{"a":1},"$set_once":{"b":2}}"#).unwrap();
    let set = events[0].set.as_ref().unwrap();
    assert_eq!(set.len(), 1);
    assert_eq!(set[0].0, "a");
    let set_once = events[0].set_once.as_ref().unwrap();
    assert_eq!(set_once.len(), 1);
    assert_eq!(set_once[0].0, "b");
    // The bare names are unknown fields, ignored rather than honored.
    let events = decode(br#"{"event":"e","set":{"a":1}}"#).unwrap();
    assert!(events[0].set.is_none());
}

#[test]
fn missing_properties_normalizes_to_empty() {
    let events = decode(br#"{"event":"e"}"#).unwrap();
    assert!(events[0].properties.is_empty());
}

#[test]
fn missing_event_name_fails() {
    parse_detail(br#"{"token":"t"}"#);
}

#[test]
fn empty_event_name_fails() {
    parse_detail(br#"{"event":""}"#);
}

#[test]
fn malformed_record_fails_whole_batch() {
    parse_detail(br#"[{"event":"good"},{"token":"no-event"}]"#);
}

#[test]
fn invalid_json_fails_with_parser_detail() {
    let detail = parse_detail(b"{\"event\"");
    assert!(!detail.is_empty());
}

#[test]
fn non_record_document_fails() {
    parse_detail(b"\"just a string\"");
    parse_detail(b"42");
    parse_detail(b"[1,2,3]");
}

#[test]
fn uuid_field_is_parsed() {
    let events =
        decode(br#"{"event":"e","uuid":"00000000-0000-0000-0000-000000000001"}"#).unwrap();
    assert_eq!(events[0].uuid, Some(1u128));
}

#[test]
fn invalid_uuid_fails() {
    parse_detail(br#"{"event":"e","uuid":"not-a-uuid"}"#);
}

#[test]
fn offset_must_be_an_integer() {
    let events = decode(br#"{"event":"e","offset":42}"#).unwrap();
    assert_eq!(events[0].offset, Some(42));
    parse_detail(br#"{"event":"e","offset":4.5}"#);
}

#[test]
fn timestamp_is_passed_through() {
    let events = decode(br#"{"event":"e","timestamp":"2023-05-22T10:42:39.827Z"}"#).unwrap();
    assert_eq!(events[0].timestamp.as_deref(), Some("2023-05-22T10:42:39.827Z"));
}

#[test]
fn unknown_fields_are_ignored() {
    let events = decode(br#"{"event":"e","whatever":{"deep":[1,2]},"other":null}"#).unwrap();
    assert_eq!(events.len(), 1);
}

#[test]
fn null_optional_fields_are_absent() {
    let events = decode(br#"{"event":"e","token":null,"distinct_id":null,"offset":null}"#)
        .unwrap();
    assert_eq!(events[0].token, None);
    assert_eq!(events[0].distinct_id, None);
    assert_eq!(events[0].offset, None);
}

#[test]
fn property_values_survive_decoding() {
    let events = decode(br#"{"event":"e","properties":{"n":7,"flag":true,"name":"x"}}"#).unwrap();
    let props = &events[0].properties;
    assert_eq!(props.len(), 3);
    let n = props.iter().find(|p| p.0 == "n").unwrap();
    match &n.1 {
        JsonValue::Num { int_val, raw } => {
            assert_eq!(*int_val, Some(7));
            assert_eq!(raw, "7");
        }
        other => panic!("expected a number, got {:?}", other),
    }
    let flag = props.iter().find(|p| p.0 == "flag").unwrap();
    assert!(matches!(flag.1, JsonValue::Bool(true)));
    let name = props.iter().find(|p| p.0 == "name").unwrap();
    match &name.1 {
        JsonValue::Str(s) => assert_eq!(s, "x"),
        other => panic!("expected a string, got {:?}", other),
    }
}
