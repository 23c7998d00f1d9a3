use base64::Engine as _;
use bytes::Bytes;
use std::io::Write;

use capture::api::CaptureError;
use capture::event::Compression;
use capture::event::EventQuery;
use capture::event::ProcessedEvent;
use capture::event::RawEvent;
use capture::json::JsonValue;

fn no_query() -> EventQuery {
    EventQuery {
        compression: None,
        lib_version: None,
        sent_at: None,
    }
}

fn gzip_bytes(text: &str) -> Vec<u8> {
    let mut enc = flate2::write::GzEncoder::new(Vec::new(), flate2::Compression::default());
    enc.write_all(text.as_bytes()).unwrap();
    enc.finish().unwrap()
}

#[test]
fn decode_bytes() {
    let horrible_blob = "H4sIAAAAAAAAA31T207cMBD9lSrikSy+5bIrVX2g4oWWUlEqBEKRY08Sg4mD4+xCEf/e8XLZBSGeEp+ZOWOfmXPxkMAS+pAskp1BtmBBLiHZTQbvBvDBwJgsHpIdh5/kp1Rffp18OcMwAtUS/GhcjwFKZjSbkYjX3q1G8AgeGA+Nu4ughqVRUIX7ATDwHcbr4IYYUJP32LyavMVAF8Kw2NuzTknbuTEsSkIIHlvTf+vhLnzdizUxgslvs2JgkKHr5U1s8VS0dZ/NZSnlW7CVfTvhs7EG+vT0JJaMygP0VQem7bDTvBAbcGV06JAkIwTBpYHV4Hx4zS1FJH+FX7IFj7A1NbZZQR2b4GFbwFlWzFjETY/XCpXRiN538yt/S9mdnm7bSa+lDCY+kOalKDJGs/msZMVuos0YTK+e62hZciHqes7LnDcpoVmTg+TAaqnKMhWUaaa4TllBoCDpJn2uYK3k87xeyFjZFHWdzxmdq5Q0IstBzRXlDMiHbM/5kgnerKfs+tFZqHAolQflvDZ9W0Evawu6wveiENVoND4s+Ami2jBGZbayn/42g3xblizX4skp4FYMYfJQoSQf8DfSjrGBVMEsoWpArpMbK1vc8ItLDG1j1SDvrZM6muBxN/Eg7U1cVFw70KmyRl13bhqjYeBGGrtuFqWTSzzF/q8tRyvV9SfxHXQLoBuidXY0ekeF+KQnNCqgHXaIy7KJBncNERk6VUFhhB33j8zv5uhQ/rCTvbq9/9seH5Pj3Bf/TsuzYf9g2j+3h9N6yZ8Vfpmx4KSguSY5S0lOqc5LmgmhidoMmOaixoFvktFKOo9kK9Nrt3rPxViWk5RwIhtJykZzXohP2DjmZ08+bnH/4B1fkUnGSp2SMmNlIYTguS5ga//eERZZTSVeD8cWPTMGeTMgHSOMpyRLGftDyUKwBV9b6Dx5vPwPzQHjFwsFAAA=";
    let decoded_horrible_blob = base64::engine::general_purpose::STANDARD
        .decode(horrible_blob)
        .unwrap();

    let bytes = Bytes::from(decoded_horrible_blob);
    let events = RawEvent::from_bytes(
        &EventQuery {
            compression: Some(Compression::Gzip),
            lib_version: None,
            sent_at: None,
        },
        bytes.as_ref(),
    );

    assert!(events.is_ok());
}

#[test]
fn gzip_batch_two_records() {
    let body = gzip_bytes(r#"[{"event":"a","token":"t1"},{"event":"b","token":"t2"}]"#);
    let events = RawEvent::from_bytes(&no_query(), &body).unwrap();
    assert_eq!(events.len(), 2);
    assert_eq!(events[0].event, "a");
    assert_eq!(events[1].event, "b");
    assert_eq!(events[0].token.as_deref(), Some("t1"));
    assert_eq!(events[1].token.as_deref(), Some("t2"));
}

#[test]
fn plain_object_property_token() {
    let body = br#"{"event":"x","properties":{"token":"abc"}}"#;
    let events = RawEvent::from_bytes(&no_query(), body).unwrap();
    assert_eq!(events.len(), 1);
    assert_eq!(events[0].event, "x");
    assert_eq!(events[0].token, None);
    assert_eq!(events[0].extract_token().as_deref(), Some("abc"));
}

#[test]
fn non_utf8_plain_body_fails() {
    let body = [0xffu8, 0xfe, 0x00, 0x41];
    match RawEvent::from_bytes(&no_query(), &body) {
        Err(CaptureError::RequestDecodingError(d)) => assert_eq!(d, "invalid body encoding"),
        other => panic!("expected a decoding error, got {:?}", other),
    }
}

#[test]
fn corrupt_gzip_body_fails() {
    let mut body = gzip_bytes(r#"{"event":"x"}"#);
    // Keep the magic bytes, wreck the rest of the stream.
    let len = body.len();
    for b in body[4..len].iter_mut() {
        *b = 0x55;
    }
    match RawEvent::from_bytes(&no_query(), &body) {
        Err(CaptureError::RequestDecodingError(d)) => assert_eq!(d, "invalid gzip data"),
        other => panic!("expected a decoding error, got {:?}", other),
    }
}

#[test]
fn processed_event_key_format() {
    let event = ProcessedEvent {
        uuid: 0,
        distinct_id: String::from("d1"),
        ip: String::new(),
        data: String::new(),
        now: String::new(),
        sent_at: None,
        token: String::from("t1"),
    };
    assert_eq!(event.key(), "t1:d1");
}

#[test]
fn processed_event_key_deterministic() {
    let a = ProcessedEvent {
        uuid: 7,
        distinct_id: String::from("user"),
        ip: String::from("10.0.0.1"),
        data: String::from("{}"),
        now: String::from("now"),
        sent_at: Some(123),
        token: String::from("tok"),
    };
    let b = ProcessedEvent {
        uuid: 8,
        distinct_id: String::from("user"),
        ip: String::from("10.9.9.9"),
        data: String::from("[]"),
        now: String::from("later"),
        sent_at: None,
        token: String::from("tok"),
    };
    assert_eq!(a.key(), b.key());
    assert_eq!(a.key(), "tok:user");
}

#[test]
fn sniffing_overrides_declared_hint() {
    // A plain-text body declared as gzip still decodes as plain text.
    let body = br#"{"event":"x"}"#;
    let events = RawEvent::from_bytes(
        &EventQuery {
            compression: Some(Compression::Gzip),
            lib_version: None,
            sent_at: None,
        },
        body,
    )
    .unwrap();
    assert_eq!(events.len(), 1);
    assert_eq!(events[0].event, "x");
}

#[test]
fn gzip_roundtrips_to_plain_decode() {
    let text = r#"[{"event":"a","token":"t1"},{"event":"b"}]"#;
    let plain = RawEvent::from_bytes(&no_query(), text.as_bytes()).unwrap();
    let compressed = RawEvent::from_bytes(&no_query(), &gzip_bytes(text)).unwrap();
    assert_eq!(plain.len(), compressed.len());
    for (p, c) in plain.iter().zip(compressed.iter()) {
        assert_eq!(p.event, c.event);
        assert_eq!(p.token, c.token);
        assert_eq!(p.properties.len(), c.properties.len());
    }
}

#[test]
fn compression_query_values() {
    assert_eq!(Compression::from_query_value("gzip"), Compression::Gzip);
    assert_eq!(Compression::from_query_value("gzip-js"), Compression::Gzip);
    assert_eq!(
        Compression::from_query_value("deflate"),
        Compression::Unsupported
    );
    assert_eq!(Compression::from_query_value(""), Compression::Unsupported);
}

#[test]
fn explicit_token_beats_property_token() {
    let body = br#"{"event":"x","token":"top","properties":{"token":"inner"}}"#;
    let events = RawEvent::from_bytes(&no_query(), body).unwrap();
    assert_eq!(events[0].extract_token().as_deref(), Some("top"));
}

#[test]
fn empty_explicit_token_falls_back_to_property() {
    let record = RawEvent {
        token: Some(String::new()),
        properties: vec![(String::from("token"), JsonValue::Str(String::from("abc")))],
        event: String::from("x"),
        ..Default::default()
    };
    assert_eq!(record.extract_token().as_deref(), Some("abc"));
}

#[test]
fn missing_token_everywhere_is_none() {
    let body = br#"{"event":"x","properties":{"token":5}}"#;
    let events = RawEvent::from_bytes(&no_query(), body).unwrap();
    // The token property is not a string, so extraction finds nothing.
    assert_eq!(events[0].extract_token(), None);
}
