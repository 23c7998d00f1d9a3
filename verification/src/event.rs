//! The event data model: raw records as they arrive on the wire, the
//! normalization of a request body into an ordered list of them, token
//! extraction, and the partition key of a fully processed event.

use vstd::prelude::*;
use vstd::string::StringExecFns;

use crate::api::CaptureError;
use crate::json::JsonValue;
use crate::json::json_from_str;
use crate::json::obj_lookup;
use crate::json::parsed_json;
use crate::json::spec_obj_lookup;
use crate::json::str_eq;
use crate::payload::decode_payload;
use crate::payload::gunzip_text;
use crate::payload::spec_gzip_magic;
use crate::payload::spec_payload_text;
use vstd::utf8::decode_utf8;
use vstd::utf8::valid_utf8;

verus! {

/// Caller-declared compression hint. Advisory only: the decoder never trusts
/// it over what the bytes themselves show.
#[derive(Debug, Clone, Copy, PartialEq, Eq, Structural, Default)]
pub enum Compression {
    #[default]
    Unsupported,
    Gzip,
}

impl Compression {
    /// The hint a `compression` query-parameter value declares: `gzip` and
    /// `gzip-js` mean gzip, anything else is unsupported.
    pub fn from_query_value(s: &str) -> (r: Compression)
        ensures
            r == (if s@ == "gzip"@ || s@ == "gzip-js"@ {
                Compression::Gzip
            } else {
                Compression::Unsupported
            }),
    {
        if str_eq(s, "gzip") || str_eq(s, "gzip-js") {
            Compression::Gzip
        } else {
            Compression::Unsupported
        }
    }
}

/// Query parameters carried alongside a request body. None of them is needed
/// for decoding to succeed.
#[derive(Debug, Default)]
pub struct EventQuery {
    pub compression: Option<Compression>,
    pub lib_version: Option<String>,
    pub sent_at: Option<i64>,
}

/// A form-encoded submission: the JSON payload sits in its `data` field.
#[derive(Debug)]
pub struct EventFormData {
    pub data: String,
}

/// The 128-bit value of a UUID written in one of the textual forms that
/// `uuid::Uuid::parse_str` accepts, or `None` when the text is not one. The
/// outcome depends on the text alone, so it can be named.
pub uninterp spec fn uuid_value(s: Seq<char>) -> Option<u128>;

/// Relies on `uuid::Uuid::parse_str` to read a textual UUID, and on
/// `Uuid::as_u128` to take its 128-bit value.
#[verifier::external_body]
fn parse_uuid(s: &str) -> (r: Option<u128>)
    ensures
        r == uuid_value(s@),
{
    match uuid::Uuid::parse_str(s) {
        Ok(u) => Some(u.as_u128()),
        Err(_) => None,
    }
}

/// One raw event record, the normalized unit of input. Its unique identifier
/// is carried as the 128-bit value of the submitted UUID; property values
/// stay arbitrary JSON, opaque to this crate and validated downstream.
#[derive(Debug, Default)]
pub struct RawEvent {
    pub token: Option<String>,
    pub distinct_id: Option<String>,
    pub uuid: Option<u128>,
    pub event: String,
    pub properties: Vec<(String, JsonValue)>,
    pub timestamp: Option<String>,
    pub offset: Option<i64>,
    pub set: Option<Vec<(String, JsonValue)>>,
    pub set_once: Option<Vec<(String, JsonValue)>>,
}

/// The mathematical content of a `RawEvent`: the same fields with every
/// property list taken as a sequence, so that two records built in different
/// calls can be compared.
pub ghost struct RawEventModel {
    pub token: Option<String>,
    pub distinct_id: Option<String>,
    pub uuid: Option<u128>,
    pub event: String,
    pub properties: Seq<(String, JsonValue)>,
    pub timestamp: Option<String>,
    pub offset: Option<i64>,
    pub set: Option<Seq<(String, JsonValue)>>,
    pub set_once: Option<Seq<(String, JsonValue)>>,
}

impl RawEvent {
    pub open spec fn model(self) -> RawEventModel {
        RawEventModel {
            token: self.token,
            distinct_id: self.distinct_id,
            uuid: self.uuid,
            event: self.event,
            properties: self.properties@,
            timestamp: self.timestamp,
            offset: self.offset,
            set: match self.set {
                Some(p) => Some(p@),
                None => None,
            },
            set_once: match self.set_once {
                Some(p) => Some(p@),
                None => None,
            },
        }
    }
}

/// The state of a record while its wire fields are being read: for each
/// logical field, `None` until its wire name (or an alias of it) has been
/// seen, so that a second occurrence can be refused as a duplicate. The
/// inner option of a field distinguishes an explicit JSON `null` from a
/// value.
pub struct FieldAcc {
    pub token: Option<Option<String>>,
    pub distinct_id: Option<Option<String>>,
    pub uuid: Option<Option<u128>>,
    pub event: Option<String>,
    pub properties: Option<Vec<(String, JsonValue)>>,
    pub timestamp: Option<Option<String>>,
    pub offset: Option<Option<i64>>,
    pub set: Option<Option<Vec<(String, JsonValue)>>>,
    pub set_once: Option<Option<Vec<(String, JsonValue)>>>,
}

pub open spec fn init_acc() -> FieldAcc {
    FieldAcc {
        token: None,
        distinct_id: None,
        uuid: None,
        event: None,
        properties: None,
        timestamp: None,
        offset: None,
        set: None,
        set_once: None,
    }
}

pub open spec fn spec_flat<T>(o: Option<Option<T>>) -> Option<T> {
    match o {
        Some(x) => x,
        None => None,
    }
}

/// How one object entry changes the record state, or `None` when the entry
/// is refused: a repeated logical field (directly or through an alias), a
/// wrong type for a field, an empty event name, a `uuid` that is not a
/// textual UUID, or an `offset` that is not an integer. Unknown names are
/// ignored. The branches mirror the wire names: `token` also answers to
/// `$token` and `api_key`, and the set fields answer to `$set`/`$set_once`.
pub open spec fn spec_apply_field(acc: FieldAcc, k: Seq<char>, v: JsonValue) -> Option<FieldAcc> {
    if k == "token"@ || k == "$token"@ || k == "api_key"@ {
        if acc.token is Some {
            None
        } else {
            match v {
                JsonValue::Str(s) => Some(FieldAcc { token: Some(Some(s)), ..acc }),
                JsonValue::Null => Some(FieldAcc { token: Some(None), ..acc }),
                _ => None,
            }
        }
    } else if k == "distinct_id"@ {
        if acc.distinct_id is Some {
            None
        } else {
            match v {
                JsonValue::Str(s) => Some(FieldAcc { distinct_id: Some(Some(s)), ..acc }),
                JsonValue::Null => Some(FieldAcc { distinct_id: Some(None), ..acc }),
                _ => None,
            }
        }
    } else if k == "uuid"@ {
        if acc.uuid is Some {
            None
        } else {
            match v {
                JsonValue::Str(s) => match uuid_value(s@) {
                    Some(u) => Some(FieldAcc { uuid: Some(Some(u)), ..acc }),
                    None => None,
                },
                JsonValue::Null => Some(FieldAcc { uuid: Some(None), ..acc }),
                _ => None,
            }
        }
    } else if k == "event"@ {
        if acc.event is Some {
            None
        } else {
            match v {
                JsonValue::Str(s) => if s@.len() == 0 {
                    None
                } else {
                    Some(FieldAcc { event: Some(s), ..acc })
                },
                _ => None,
            }
        }
    } else if k == "properties"@ {
        if acc.properties is Some {
            None
        } else {
            match v {
                JsonValue::Obj(es) => Some(FieldAcc { properties: Some(es), ..acc }),
                _ => None,
            }
        }
    } else if k == "timestamp"@ {
        if acc.timestamp is Some {
            None
        } else {
            match v {
                JsonValue::Str(s) => Some(FieldAcc { timestamp: Some(Some(s)), ..acc }),
                JsonValue::Null => Some(FieldAcc { timestamp: Some(None), ..acc }),
                _ => None,
            }
        }
    } else if k == "offset"@ {
        if acc.offset is Some {
            None
        } else {
            match v {
                JsonValue::Num { int_val: Some(i), .. } => Some(
                    FieldAcc { offset: Some(Some(i)), ..acc },
                ),
                JsonValue::Null => Some(FieldAcc { offset: Some(None), ..acc }),
                _ => None,
            }
        }
    } else if k == "$set"@ {
        if acc.set is Some {
            None
        } else {
            match v {
                JsonValue::Obj(es) => Some(FieldAcc { set: Some(Some(es)), ..acc }),
                JsonValue::Null => Some(FieldAcc { set: Some(None), ..acc }),
                _ => None,
            }
        }
    } else if k == "$set_once"@ {
        if acc.set_once is Some {
            None
        } else {
            match v {
                JsonValue::Obj(es) => Some(FieldAcc { set_once: Some(Some(es)), ..acc }),
                JsonValue::Null => Some(FieldAcc { set_once: Some(None), ..acc }),
                _ => None,
            }
        }
    } else {
        Some(acc)
    }
}

/// Reading an object's entries left to right, starting from `acc`.
pub open spec fn spec_fold_fields(acc: FieldAcc, entries: Seq<(String, JsonValue)>) -> Option<
    FieldAcc,
>
    decreases entries.len(),
{
    if entries.len() == 0 {
        Some(acc)
    } else {
        match spec_apply_field(acc, entries[0].0@, entries[0].1) {
            Some(a2) => spec_fold_fields(a2, entries.drop_first()),
            None => None,
        }
    }
}

/// Closing the record once all entries are read: the event name must have
/// been seen; a missing `properties` field becomes an empty mapping.
pub open spec fn spec_finish_record(acc: FieldAcc) -> Option<RawEventModel> {
    match acc.event {
        Some(e) => Some(
            RawEventModel {
                token: spec_flat(acc.token),
                distinct_id: spec_flat(acc.distinct_id),
                uuid: spec_flat(acc.uuid),
                event: e,
                properties: match acc.properties {
                    Some(p) => p@,
                    None => Seq::<(String, JsonValue)>::empty(),
                },
                timestamp: spec_flat(acc.timestamp),
                offset: spec_flat(acc.offset),
                set: match acc.set {
                    Some(Some(p)) => Some(p@),
                    _ => None,
                },
                set_once: match acc.set_once {
                    Some(Some(p)) => Some(p@),
                    _ => None,
                },
            },
        ),
        None => None,
    }
}

/// The record a JSON document denotes, or `None` when the document is not an
/// object or one of its entries is refused.
pub open spec fn spec_record_of(v: JsonValue) -> Option<RawEventModel> {
    match v {
        JsonValue::Obj(entries) => match spec_fold_fields(init_acc(), entries@) {
            Some(acc) => spec_finish_record(acc),
            None => None,
        },
        _ => None,
    }
}

fn apply_field(acc: FieldAcc, k: String, v: JsonValue) -> (r: Result<FieldAcc, String>)
    ensures
        match r {
            Ok(a2) => spec_apply_field(acc, k@, v) == Some(a2),
            Err(_) => spec_apply_field(acc, k@, v) is None,
        },
{
    let mut acc = acc;
    if str_eq(k.as_str(), "token") || str_eq(k.as_str(), "$token") || str_eq(
        k.as_str(),
        "api_key",
    ) {
        if acc.token.is_some() {
            return Err(String::from_str("duplicate token field"));
        }
        match v {
            JsonValue::Str(s) => {
                acc.token = Some(Some(s));
            },
            JsonValue::Null => {
                acc.token = Some(None);
            },
            _ => {
                return Err(String::from_str("token must be a string"));
            },
        }
        Ok(acc)
    } else if str_eq(k.as_str(), "distinct_id") {
        if acc.distinct_id.is_some() {
            return Err(String::from_str("duplicate field distinct_id"));
        }
        match v {
            JsonValue::Str(s) => {
                acc.distinct_id = Some(Some(s));
            },
            JsonValue::Null => {
                acc.distinct_id = Some(None);
            },
            _ => {
                return Err(String::from_str("distinct_id must be a string"));
            },
        }
        Ok(acc)
    } else if str_eq(k.as_str(), "uuid") {
        if acc.uuid.is_some() {
            return Err(String::from_str("duplicate field uuid"));
        }
        match v {
            JsonValue::Str(s) => match parse_uuid(s.as_str()) {
                Some(u) => {
                    acc.uuid = Some(Some(u));
                },
                None => {
                    return Err(String::from_str("uuid is not a valid UUID"));
                },
            },
            JsonValue::Null => {
                acc.uuid = Some(None);
            },
            _ => {
                return Err(String::from_str("uuid must be a string"));
            },
        }
        Ok(acc)
    } else if str_eq(k.as_str(), "event") {
        if acc.event.is_some() {
            return Err(String::from_str("duplicate field event"));
        }
        match v {
            JsonValue::Str(s) => {
                if s.as_str().is_empty() {
                    return Err(String::from_str("event name must not be empty"));
                }
                acc.event = Some(s);
            },
            _ => {
                return Err(String::from_str("event must be a string"));
            },
        }
        Ok(acc)
    } else if str_eq(k.as_str(), "properties") {
        if acc.properties.is_some() {
            return Err(String::from_str("duplicate field properties"));
        }
        match v {
            JsonValue::Obj(es) => {
                acc.properties = Some(es);
            },
            _ => {
                return Err(String::from_str("properties must be an object"));
            },
        }
        Ok(acc)
    } else if str_eq(k.as_str(), "timestamp") {
        if acc.timestamp.is_some() {
            return Err(String::from_str("duplicate field timestamp"));
        }
        match v {
            JsonValue::Str(s) => {
                acc.timestamp = Some(Some(s));
            },
            JsonValue::Null => {
                acc.timestamp = Some(None);
            },
            _ => {
                return Err(String::from_str("timestamp must be a string"));
            },
        }
        Ok(acc)
    } else if str_eq(k.as_str(), "offset") {
        if acc.offset.is_some() {
            return Err(String::from_str("duplicate field offset"));
        }
        match v {
            JsonValue::Num { int_val, raw: _ } => match int_val {
                Some(i) => {
                    acc.offset = Some(Some(i));
                },
                None => {
                    return Err(String::from_str("offset must be an integer"));
                },
            },
            JsonValue::Null => {
                acc.offset = Some(None);
            },
            _ => {
                return Err(String::from_str("offset must be an integer"));
            },
        }
        Ok(acc)
    } else if str_eq(k.as_str(), "$set") {
        if acc.set.is_some() {
            return Err(String::from_str("duplicate field $set"));
        }
        match v {
            JsonValue::Obj(es) => {
                acc.set = Some(Some(es));
            },
            JsonValue::Null => {
                acc.set = Some(None);
            },
            _ => {
                return Err(String::from_str("$set must be an object"));
            },
        }
        Ok(acc)
    } else if str_eq(k.as_str(), "$set_once") {
        if acc.set_once.is_some() {
            return Err(String::from_str("duplicate field $set_once"));
        }
        match v {
            JsonValue::Obj(es) => {
                acc.set_once = Some(Some(es));
            },
            JsonValue::Null => {
                acc.set_once = Some(None);
            },
            _ => {
                return Err(String::from_str("$set_once must be an object"));
            },
        }
        Ok(acc)
    } else {
        Ok(acc)
    }
}

fn flat<T>(o: Option<Option<T>>) -> (r: Option<T>)
    ensures
        r == spec_flat(o),
{
    match o {
        Some(x) => x,
        None => None,
    }
}

#[verifier::loop_isolation(false)]
fn fold_fields(entries: Vec<(String, JsonValue)>) -> (r: Result<FieldAcc, String>)
    ensures
        r is Ok ==> spec_fold_fields(init_acc(), entries@) == Some(r->Ok_0),
        r is Err ==> spec_fold_fields(init_acc(), entries@) is None,
{
    let ghost all = entries@;
    let mut rest = entries;
    let mut acc = FieldAcc {
        token: None,
        distinct_id: None,
        uuid: None,
        event: None,
        properties: None,
        timestamp: None,
        offset: None,
        set: None,
        set_once: None,
    };
    while rest.len() > 0
        invariant
            spec_fold_fields(init_acc(), all) == spec_fold_fields(acc, rest@),
        decreases rest@.len(),
    {
        let ghost pre_entries = rest@;
        let (k, v) = rest.remove(0);
        proof {
            assert(pre_entries.remove(0) =~= pre_entries.drop_first());
        }
        match apply_field(acc, k, v) {
            Ok(a2) => {
                acc = a2;
            },
            Err(m) => {
                return Err(m);
            },
        }
    }
    Ok(acc)
}

fn finish_record(acc: FieldAcc) -> (r: Result<RawEvent, String>)
    ensures
        match r {
            Ok(ev) => spec_finish_record(acc) == Some(ev.model()),
            Err(_) => spec_finish_record(acc) is None,
        },
{
    let ghost ga = acc;
    let FieldAcc { token, distinct_id, uuid, event, properties, timestamp, offset, set, set_once }
        = acc;
    let event = match event {
        Some(e) => e,
        None => {
            return Err(String::from_str("missing field event"));
        },
    };
    let properties = match properties {
        Some(p) => p,
        None => Vec::new(),
    };
    let ev = RawEvent {
        token: flat(token),
        distinct_id: flat(distinct_id),
        uuid: flat(uuid),
        event,
        properties,
        timestamp: flat(timestamp),
        offset: flat(offset),
        set: flat(set),
        set_once: flat(set_once),
    };
    proof {
        assert(spec_finish_record(ga) == Some(ev.model())) by {
            assert(spec_finish_record(ga)->0.properties =~= ev.model().properties);
            assert(spec_finish_record(ga)->0 == ev.model());
        }
    }
    Ok(ev)
}

/// Turns one JSON document into one record.
pub fn record_from_json(v: JsonValue) -> (r: Result<RawEvent, String>)
    ensures
        match r {
            Ok(ev) => spec_record_of(v) == Some(ev.model()),
            Err(_) => spec_record_of(v) is None,
        },
{
    match v {
        JsonValue::Obj(entries) => match fold_fields(entries) {
            Ok(acc) => finish_record(acc),
            Err(m) => Err(m),
        },
        _ => Err(String::from_str("expected a JSON object")),
    }
}

/// The wire-level shape of a request body: either one record or a batch of
/// them. Resolved at parse time and never retained past normalization.
pub enum RawRequest {
    /// Batch of events
    Batch(Vec<RawEvent>),
    /// Single event
    One(Box<RawEvent>),
}

impl RawRequest {
    /// The ordered sequence this request denotes: a batch as it stands, a
    /// single record as a one-element sequence.
    pub open spec fn spec_events(self) -> Seq<RawEvent> {
        match self {
            RawRequest::Batch(events) => events@,
            RawRequest::One(event) => seq![*event],
        }
    }

    /// Flattens the request into its ordered list of records.
    pub fn events(self) -> (r: Vec<RawEvent>)
        ensures
            r@ == self.spec_events(),
    {
        match self {
            RawRequest::Batch(events) => events,
            RawRequest::One(event) => {
                proof {
                    assert(seq![*event] =~= RawRequest::One(event).spec_events());
                }
                vec![*event]
            },
        }
    }
}

/// The sequence of record models a JSON document denotes: an array maps its
/// elements in order (all must be records), anything else must itself be a
/// record and denotes a one-element sequence.
pub open spec fn spec_events_of(v: JsonValue) -> Option<Seq<RawEventModel>> {
    match v {
        JsonValue::Arr(items) => if forall|i: int|
            0 <= i < items@.len() ==> (#[trigger] spec_record_of(items@[i])) is Some {
            Some(Seq::new(items@.len(), |i: int| spec_record_of(items@[i])->0))
        } else {
            None
        },
        _ => match spec_record_of(v) {
            Some(m) => Some(seq![m]),
            None => None,
        },
    }
}

/// Parses a JSON document as a request: an array of records or one record.
/// A malformed record anywhere in a batch fails the whole batch: the caller
/// gets one error, never a partial list.
#[verifier::loop_isolation(false)]
pub fn raw_request_from_json(v: JsonValue) -> (r: Result<RawRequest, String>)
    ensures
        match r {
            Ok(req) => spec_events_of(v) == Some(
                req.spec_events().map_values(|e: RawEvent| e.model()),
            ),
            Err(_) => spec_events_of(v) is None,
        },
{
    match v {
        JsonValue::Arr(items) => {
            let ghost all = items@;
            let mut rest = items;
            let mut out: Vec<RawEvent> = Vec::new();
            while rest.len() > 0
                invariant
                    out@.len() + rest@.len() == all.len(),
                    rest@ == all.skip(out@.len() as int),
                    forall|i: int|
                        0 <= i < out@.len() ==> spec_record_of(all[i]) == Some(
                            (#[trigger] out@[i]).model(),
                        ),
                decreases rest@.len(),
            {
                let ghost k: int = out@.len() as int;
                let item = rest.remove(0);
                proof {
                    assert(all.skip(k)[0] == all[k]);
                    assert(all.skip(k).remove(0) =~= all.skip(k + 1));
                }
                match record_from_json(item) {
                    Ok(ev) => {
                        out.push(ev);
                    },
                    Err(m) => {
                        proof {
                            assert(spec_record_of(all[k]) is None);
                        }
                        return Err(m);
                    },
                }
            }
            proof {
                let models = out@.map_values(|e: RawEvent| e.model());
                assert forall|i: int|
                    0 <= i < all.len() implies (#[trigger] spec_record_of(all[i])) is Some by {
                    assert(spec_record_of(all[i]) == Some(out@[i].model()));
                }
                assert forall|i: int|
                    0 <= i < all.len() implies Seq::new(
                    all.len(),
                    |j: int| spec_record_of(all[j])->0,
                )[i] == models[i] by {
                    assert(spec_record_of(all[i]) == Some(out@[i].model()));
                }
                assert(Seq::new(all.len(), |j: int| spec_record_of(all[j])->0) =~= models);
            }
            Ok(RawRequest::Batch(out))
        },
        other => {
            match record_from_json(other) {
                Ok(ev) => {
                    proof {
                        let req = RawRequest::One(Box::new(ev));
                        assert(req.spec_events().map_values(|e: RawEvent| e.model()) =~= seq![
                            ev.model(),
                        ]);
                    }
                    Ok(RawRequest::One(Box::new(ev)))
                },
                Err(m) => Err(m),
            }
        },
    }
}

/// The three possible fates of a request body, as a function of its bytes:
/// decoded to records, refused while turning bytes into text, or refused
/// while reading the text as records.
pub ghost enum DecodeOutcome {
    Decoded(Seq<RawEventModel>),
    DecodingFailure,
    ParseFailure,
}

/// What decoding does with a buffer: sniff, decompress or read as UTF-8,
/// parse as JSON, normalize. Each step's failure is final; no partial batch
/// is ever produced.
pub open spec fn spec_decode(b: Seq<u8>) -> DecodeOutcome {
    match spec_payload_text(b) {
        None => DecodeOutcome::DecodingFailure,
        Some(t) => match parsed_json(t) {
            None => DecodeOutcome::ParseFailure,
            Some(v) => match spec_events_of(v) {
                None => DecodeOutcome::ParseFailure,
                Some(ms) => DecodeOutcome::Decoded(ms),
            },
        },
    }
}

impl RawEvent {
    /// Takes a request payload and tries to decompress and unmarshall it
    /// into events. Clients declare compression in a query parameter, but a
    /// sizable share of compressed bodies arrive without it, so the query is
    /// never consulted: the payload's own first three bytes decide, and the
    /// result is a function of the bytes alone.
    pub fn from_bytes(_query: &EventQuery, bytes: &[u8]) -> (r: Result<
        Vec<RawEvent>,
        CaptureError,
    >)
        ensures
            match r {
                Ok(events) => spec_decode(bytes@) == DecodeOutcome::Decoded(
                    events@.map_values(|e: RawEvent| e.model()),
                ),
                Err(CaptureError::RequestDecodingError(d)) => {
                    &&& spec_decode(bytes@) is DecodingFailure
                    &&& spec_gzip_magic(bytes@) ==> d@ == "invalid gzip data"@
                    &&& !spec_gzip_magic(bytes@) ==> d@ == "invalid body encoding"@
                },
                Err(CaptureError::RequestParsingError(_)) => spec_decode(bytes@) is ParseFailure,
            },
    {
        let payload = match decode_payload(bytes) {
            Ok(s) => s,
            Err(e) => {
                return Err(e);
            },
        };
        let parsed = match json_from_str(payload.as_str()) {
            Ok(v) => v,
            Err(m) => {
                return Err(CaptureError::RequestParsingError(m));
            },
        };
        let request = match raw_request_from_json(parsed) {
            Ok(req) => req,
            Err(m) => {
                return Err(CaptureError::RequestParsingError(m));
            },
        };
        Ok(request.events())
    }

    /// The token under which a record was submitted, if any: the explicit
    /// token field when present and non-empty, otherwise the string under
    /// the `token` property key, otherwise none. Exactly this precedence;
    /// extraction never fails.
    pub open spec fn spec_extract_token(self) -> Option<String> {
        match self.token {
            Some(t) => if t@.len() > 0 {
                Some(t)
            } else {
                spec_property_token(self)
            },
            None => spec_property_token(self),
        }
    }

    /// Resolves this record's identity token.
    pub fn extract_token(&self) -> (r: Option<String>)
        ensures
            r == self.spec_extract_token(),
    {
        match &self.token {
            Some(t) => {
                if !t.as_str().is_empty() {
                    return Some(t.clone());
                }
            },
            None => {},
        }
        match obj_lookup(&self.properties, "token") {
            Some(JsonValue::Str(s)) => Some(s.clone()),
            _ => None,
        }
    }
}

/// The string under the `token` key of a record's properties, when that key
/// is present and holds a JSON string.
pub open spec fn spec_property_token(ev: RawEvent) -> Option<String> {
    match spec_obj_lookup(ev.properties@, "token"@) {
        Some(JsonValue::Str(s)) => Some(s),
        _ => None,
    }
}

/// Context the external pipeline supplies when enriching a raw record; the
/// sender timestamp is carried as an epoch value.
#[derive(Debug)]
pub struct ProcessingContext {
    pub lib_version: Option<String>,
    pub sent_at: Option<i64>,
    pub token: String,
    pub now: String,
    pub client_ip: String,
}

/// An event after enrichment by the external pipeline; its identifier is the
/// 128-bit value of its UUID and the sender timestamp is an epoch value. By
/// construction time its token and distinct id are resolved and non-empty
/// (enforced by that pipeline, not here).
#[derive(Debug, Clone, Default, PartialEq, Eq)]
pub struct ProcessedEvent {
    pub uuid: u128,
    pub distinct_id: String,
    pub ip: String,
    pub data: String,
    pub now: String,
    pub sent_at: Option<i64>,
    pub token: String,
}

impl ProcessedEvent {
    /// The partition key: the token, a literal colon, the distinct id, with
    /// no escaping. A colon inside either component is not guarded against:
    /// the key is unique only jointly in the pair, and that is intentional.
    pub open spec fn spec_key(self) -> Seq<char> {
        self.token@ + ":"@ + self.distinct_id@
    }

    /// Derives the partition/deduplication key `token:distinct_id`.
    pub fn key(&self) -> (r: String)
        ensures
            r@ == self.spec_key(),
    {
        let mut r = String::new();
        r.append(self.token.as_str());
        r.append(":");
        r.append(self.distinct_id.as_str());
        r
    }
}

proof fn lemma_fold_keeps_event_nonempty(acc: FieldAcc, entries: Seq<(String, JsonValue)>)
    requires
        match acc.event {
            Some(e) => e@.len() > 0,
            None => true,
        },
    ensures
        match spec_fold_fields(acc, entries) {
            Some(a) => match a.event {
                Some(e) => e@.len() > 0,
                None => true,
            },
            None => true,
        },
    decreases entries.len(),
{
    if entries.len() > 0 {
        match spec_apply_field(acc, entries[0].0@, entries[0].1) {
            Some(a2) => {
                lemma_fold_keeps_event_nonempty(a2, entries.drop_first());
            },
            None => {},
        }
    }
}

/// A record that normalization accepts never carries an empty event name.
pub proof fn lemma_event_name_nonempty(v: JsonValue)
    ensures
        match spec_record_of(v) {
            Some(m) => m.event@.len() > 0,
            None => true,
        },
{
    match v {
        JsonValue::Obj(entries) => {
            lemma_fold_keeps_event_nonempty(init_acc(), entries@);
        },
        _ => {},
    }
}

/// No record of a decoded request carries an empty event name, one record or
/// a whole batch alike.
pub proof fn lemma_decoded_events_nonempty(v: JsonValue)
    ensures
        match spec_events_of(v) {
            Some(ms) => forall|i: int|
                0 <= i < ms.len() ==> (#[trigger] ms[i]).event@.len() > 0,
            None => true,
        },
{
    match v {
        JsonValue::Arr(items) => {
            match spec_events_of(v) {
                Some(ms) => {
                    assert forall|i: int|
                        0 <= i < ms.len() implies (#[trigger] ms[i]).event@.len() > 0 by {
                        lemma_event_name_nonempty(items@[i]);
                    }
                },
                None => {},
            }
        },
        _ => {
            lemma_event_name_nonempty(v);
        },
    }
}

/// Shape normalization: a JSON array of records yields exactly as many
/// records as the array has elements, in the array's order, and a single
/// JSON object yields exactly one.
pub proof fn lemma_normalization_shape(v: JsonValue)
    ensures
        match v {
            JsonValue::Arr(items) => match spec_events_of(v) {
                Some(ms) => ms.len() == items@.len() && (forall|i: int|
                    0 <= i < ms.len() ==> Some(#[trigger] ms[i]) == spec_record_of(items@[i])),
                None => true,
            },
            _ => match spec_events_of(v) {
                Some(ms) => ms.len() == 1 && Some(ms[0]) == spec_record_of(v),
                None => true,
            },
        },
{
}

/// Round-trip equivalence: a gzip-compressed body that decompresses to some
/// UTF-8 text decodes to exactly the outcome of submitting that text plain,
/// as its UTF-8 bytes.
pub proof fn lemma_gzip_roundtrip(compressed: Seq<u8>, plain: Seq<u8>)
    requires
        spec_gzip_magic(compressed),
        !spec_gzip_magic(plain),
        valid_utf8(plain),
        gunzip_text(compressed) == Some(decode_utf8(plain)),
    ensures
        spec_decode(compressed) == spec_decode(plain),
{
}

/// Token precedence: when a record carries a non-empty explicit token and
/// its properties also hold a string under the `token` key, extraction
/// returns the explicit field's value.
pub proof fn lemma_token_precedence(ev: RawEvent, t: String, p: String)
    requires
        ev.token == Some(t),
        t@.len() > 0,
        spec_obj_lookup(ev.properties@, "token"@) == Some(JsonValue::Str(p)),
    ensures
        ev.spec_extract_token() == Some(t),
{
}

/// Equal (token, distinct id) pairs always derive the same key.
pub proof fn lemma_key_deterministic(a: ProcessedEvent, b: ProcessedEvent)
    requires
        a.token@ == b.token@,
        a.distinct_id@ == b.distinct_id@,
    ensures
        a.spec_key() == b.spec_key(),
{
}

} // verus!
