//! The decoding pipeline: framing splits a byte payload into records,
//! a format selector turns each record into events, and every produced
//! event is stamped with the source's component type name. Malformed
//! input never aborts the pipeline: it yields an error descriptor and
//! zero events for that record.

use vstd::prelude::*;
use crate::event::{
    make_event, stamped_fields, without_key, Event, EventKind, EventView, Value, ValueView,
};
use crate::json::{
    json_top_of, json_top_of_text, parse_json_bytes, parse_json_text, JsonTop, JsonTopView,
};

verus! {

/// How a payload is split into records before format decoding.
#[derive(Clone, Copy, PartialEq, Eq, Structural, Debug)]
pub enum FramingStrategy {
    /// The whole payload is one record; an empty payload holds none.
    WholeBody,
    /// Records are the non-empty runs between newline bytes.
    NewlineDelimited,
    /// Each record is preceded by its length as four big-endian bytes.
    LengthPrefixed,
}

/// The format under which one framed record is decoded.
#[derive(Clone, Copy, PartialEq, Eq, Structural, Debug)]
pub enum DecodingFormat {
    Bytes,
    Json,
    NativeJson,
}

/// Why one record (or the unparsed tail of a payload) failed to decode.
#[derive(Clone, Copy, PartialEq, Eq, Structural, Debug)]
pub enum DecodeReason {
    InvalidJson,
    MissingDiscriminator,
    SchemaViolation,
    MalformedFraming,
}

/// A decode error descriptor: the reason, and an excerpt of the input
/// that failed.
#[derive(Clone, PartialEq, Eq, Debug)]
pub struct DecodeError {
    pub reason: DecodeReason,
    pub excerpt: Option<Vec<u8>>,
}

/// Mathematical shape of a `DecodeError`.
#[verifier::ext_equal]
pub struct DecodeErrorView {
    pub reason: DecodeReason,
    pub excerpt: Option<Seq<u8>>,
}

impl View for DecodeError {
    type V = DecodeErrorView;

    open spec fn view(&self) -> DecodeErrorView {
        DecodeErrorView { reason: self.reason, excerpt: self.excerpt.deep_view() }
    }
}

impl DeepView for DecodeError {
    type V = DecodeErrorView;

    open spec fn deep_view(&self) -> DecodeErrorView {
        self.view()
    }
}

/// What decoding one payload yields: the events of the records that
/// decoded, and one error descriptor per record (or tail) that did not.
pub struct DecodeOutcome {
    pub events: Vec<Event>,
    pub errors: Vec<DecodeError>,
}

/// Copy of a whole byte record, used to hand out records and excerpts.
fn copy_all(src: &Vec<u8>) -> (r: Vec<u8>)
    ensures
        r@ == src@,
{
    let r = copy_range(src, 0, src.len());
    proof {
        assert(r@ =~~= src@);
    }
    r
}

/// Copy of a byte range, used to hand out records and excerpts.
fn copy_range(src: &Vec<u8>, from: usize, to: usize) -> (r: Vec<u8>)
    requires
        from <= to <= src@.len(),
    ensures
        r@ == src@.subrange(from as int, to as int),
{
    let mut out: Vec<u8> = Vec::new();
    let mut i: usize = from;
    while i < to
        invariant
            from <= i <= to <= src@.len(),
            out@ == src@.subrange(from as int, i as int),
        decreases to - i,
    {
        let b: u8 = src[i];
        out.push(b);
        proof {
            assert(out@ =~~= src@.subrange(from as int, i + 1 as int));
        }
        i = i + 1;
    }
    out
}

// ------------------------------------------------------------------
// Framing
// ------------------------------------------------------------------

/// Scanning a prefix for newline-delimited records: the records closed so
/// far, and the open record still being gathered.
pub open spec fn newline_split(s: Seq<u8>) -> (Seq<Seq<u8>>, Seq<u8>)
    decreases s.len(),
{
    if s.len() == 0 {
        (Seq::empty(), Seq::empty())
    } else {
        let (recs, cur) = newline_split(s.drop_last());
        if s.last() == 10u8 {
            if cur.len() > 0 {
                (recs.push(cur), Seq::empty())
            } else {
                (recs, Seq::empty())
            }
        } else {
            (recs, cur.push(s.last()))
        }
    }
}

/// The newline-delimited records of a payload: its non-empty runs
/// between newline bytes.
pub open spec fn newline_records(s: Seq<u8>) -> Seq<Seq<u8>> {
    let (recs, cur) = newline_split(s);
    if cur.len() > 0 {
        recs.push(cur)
    } else {
        recs
    }
}

/// The value of four big-endian length bytes.
pub open spec fn be32(s: Seq<u8>) -> int {
    s[0] * 0x1000000 + s[1] * 0x10000 + s[2] * 0x100 + s[3]
}

/// Length-prefixed framing: the records whose prefixes parse, and the
/// malformed tail, if one remains.
pub open spec fn length_prefixed_split(s: Seq<u8>) -> (Seq<Seq<u8>>, Option<Seq<u8>>)
    decreases s.len(),
{
    if s.len() == 0 {
        (Seq::empty(), None)
    } else if s.len() < 4 {
        (Seq::empty(), Some(s))
    } else {
        let n = be32(s.subrange(0, 4));
        if 4 + n <= s.len() {
            let (rest, tail) = length_prefixed_split(s.subrange(4 + n, s.len() as int));
            (seq![s.subrange(4, 4 + n)] + rest, tail)
        } else {
            (Seq::empty(), Some(s))
        }
    }
}

/// The records of a payload under a framing strategy, and the malformed
/// tail, if the strategy leaves one.
pub open spec fn framed(s: Seq<u8>, f: FramingStrategy) -> (Seq<Seq<u8>>, Option<Seq<u8>>) {
    match f {
        FramingStrategy::WholeBody => {
            if s.len() == 0 {
                (Seq::empty(), None)
            } else {
                (seq![s], None)
            }
        },
        FramingStrategy::NewlineDelimited => (newline_records(s), None),
        FramingStrategy::LengthPrefixed => length_prefixed_split(s),
    }
}

fn frame_newline(payload: &Vec<u8>) -> (r: Vec<Vec<u8>>)
    ensures
        r.deep_view() == newline_records(payload@),
{
    let mut recs: Vec<Vec<u8>> = Vec::new();
    let mut cur: Vec<u8> = Vec::new();
    let mut i: usize = 0;
    proof {
        assert(payload@.subrange(0, 0) =~~= Seq::<u8>::empty());
    }
    while i < payload.len()
        invariant
            i <= payload@.len(),
            recs.deep_view() == newline_split(payload@.subrange(0, i as int)).0,
            cur@ == newline_split(payload@.subrange(0, i as int)).1,
        decreases payload@.len() - i,
    {
        let ghost pre = payload@.subrange(0, i as int);
        let ghost now = payload@.subrange(0, i + 1 as int);
        proof {
            assert(now.drop_last() =~~= pre);
            assert(now.last() == payload@[i as int]);
        }
        let ghost recs_pre = recs.deep_view();
        let ghost cur_pre = cur@;
        let b: u8 = payload[i];
        if b == 10 {
            if cur.len() > 0 {
                recs.push(cur);
                cur = Vec::new();
                proof {
                    assert(recs.deep_view() =~~= recs_pre.push(cur_pre));
                }
            }
        } else {
            cur.push(b);
        }
        i = i + 1;
    }
    proof {
        assert(payload@.subrange(0, payload@.len() as int) =~~= payload@);
    }
    if cur.len() > 0 {
        recs.push(cur);
        proof {
            assert(recs.deep_view() =~~= newline_split(payload@).0.push(newline_split(payload@).1));
        }
    }
    recs
}

fn frame_length_prefixed(payload: &Vec<u8>) -> (r: (Vec<Vec<u8>>, Option<Vec<u8>>))
    ensures
        r.0.deep_view() == length_prefixed_split(payload@).0,
        r.1.deep_view() == length_prefixed_split(payload@).1,
{
    let mut recs: Vec<Vec<u8>> = Vec::new();
    let mut i: usize = 0;
    proof {
        assert(payload@.subrange(0, payload@.len() as int) =~~= payload@);
        assert(recs.deep_view() =~~= Seq::<Seq<u8>>::empty());
        assert(recs.deep_view() + length_prefixed_split(payload@).0 =~~= length_prefixed_split(
            payload@,
        ).0);
    }
    loop
        invariant
            i <= payload@.len(),
            length_prefixed_split(payload@).0 == recs.deep_view() + length_prefixed_split(
                payload@.subrange(i as int, payload@.len() as int),
            ).0,
            length_prefixed_split(payload@).1 == length_prefixed_split(
                payload@.subrange(i as int, payload@.len() as int),
            ).1,
        decreases payload@.len() - i,
    {
        let ghost suffix = payload@.subrange(i as int, payload@.len() as int);
        let remaining: usize = payload.len() - i;
        if remaining == 0 {
            proof {
                assert(suffix.len() == 0);
                assert(recs.deep_view() + length_prefixed_split(suffix).0 =~~= recs.deep_view());
            }
            return (recs, None);
        }
        if remaining < 4 {
            let tail = copy_range(payload, i, payload.len());
            proof {
                assert(recs.deep_view() + length_prefixed_split(suffix).0 =~~= recs.deep_view());
                assert(tail@ == suffix);
            }
            return (recs, Some(tail));
        }
        let n: u32 = (payload[i] as u32) * 0x1000000 + (payload[i + 1] as u32) * 0x10000 + (payload[
            i + 2
        ] as u32) * 0x100 + (payload[i + 3] as u32);
        proof {
            assert(suffix.subrange(0, 4)[0] == payload@[i as int]);
            assert(suffix.subrange(0, 4)[1] == payload@[i + 1]);
            assert(suffix.subrange(0, 4)[2] == payload@[i + 2]);
            assert(suffix.subrange(0, 4)[3] == payload@[i + 3]);
            assert(be32(suffix.subrange(0, 4)) == n);
        }
        let n_us: usize = n as usize;
        if n_us <= payload.len() - (i + 4) {
            let rec = copy_range(payload, i + 4, i + 4 + n_us);
            let ghost recs_pre = recs.deep_view();
            recs.push(rec);
            proof {
                assert(4 + be32(suffix.subrange(0, 4)) <= suffix.len());
                assert(rec@ =~~= suffix.subrange(4, 4 + n as int));
                assert(suffix.subrange(4 + n as int, suffix.len() as int) =~~= payload@.subrange(
                    i + 4 + n_us as int,
                    payload@.len() as int,
                ));
                assert(recs.deep_view() =~~= recs_pre.push(rec@));
                assert(recs.deep_view() + length_prefixed_split(
                    payload@.subrange(i + 4 + n_us as int, payload@.len() as int),
                ).0 =~~= recs_pre + length_prefixed_split(suffix).0);
            }
            i = i + 4 + n_us;
        } else {
            let tail = copy_range(payload, i, payload.len());
            proof {
                assert(4 + be32(suffix.subrange(0, 4)) > suffix.len());
                assert(recs.deep_view() + length_prefixed_split(suffix).0 =~~= recs.deep_view());
                assert(tail@ == suffix);
            }
            return (recs, Some(tail));
        }
    }
}

/// Split a payload into records under the chosen framing strategy. The
/// second component is the malformed tail, if one remains: it is itself
/// a decode error, while the records before it are still decoded.
pub fn frame_payload(payload: &Vec<u8>, framing: FramingStrategy) -> (r: (
    Vec<Vec<u8>>,
    Option<Vec<u8>>,
))
    ensures
        r.0.deep_view() == framed(payload@, framing).0,
        r.1.deep_view() == framed(payload@, framing).1,
{
    match framing {
        FramingStrategy::WholeBody => {
            if payload.len() == 0 {
                (Vec::new(), None)
            } else {
                let rec = copy_all(payload);
                let mut recs: Vec<Vec<u8>> = Vec::new();
                recs.push(rec);
                proof {
                    assert(recs.deep_view() =~~= seq![payload@]);
                }
                (recs, None)
            }
        },
        FramingStrategy::NewlineDelimited => (frame_newline(payload), None),
        FramingStrategy::LengthPrefixed => frame_length_prefixed(payload),
    }
}

// ------------------------------------------------------------------
// Format decoding of one record
// ------------------------------------------------------------------

/// The fields a parsed JSON document contributes to its log event: the
/// top-level members of an object, otherwise one `body` field.
pub open spec fn json_fields_of_top(top: JsonTopView) -> Seq<(Seq<char>, ValueView)> {
    match top {
        JsonTopView::Object(members) => members,
        JsonTopView::Other(v) => seq![("body"@, v)],
    }
}

/// The one log event that byte decoding yields for a record: the raw
/// content as its body field.
pub open spec fn bytes_record_spec(rec: Seq<u8>, source_type: Seq<char>) -> Seq<EventView> {
    seq![
        EventView {
            kind: EventKind::Log,
            fields: stamped_fields(seq![("body"@, ValueView::Bytes(rec))], source_type),
        },
    ]
}

/// What JSON decoding yields for a record: a syntax failure is a decode
/// error, otherwise one log event whose fields mirror the document's
/// top-level members.
pub open spec fn json_record_spec(rec: Seq<u8>, source_type: Seq<char>) -> Result<
    Seq<EventView>,
    DecodeReason,
> {
    match json_top_of(rec) {
        None => Err(DecodeReason::InvalidJson),
        Some(top) => Ok(
            seq![
                EventView {
                    kind: EventKind::Log,
                    fields: stamped_fields(json_fields_of_top(top), source_type),
                },
            ],
        ),
    }
}

/// The event kind a native record declares under the given member name.
pub open spec fn native_kind_of(name: Seq<char>) -> Option<EventKind> {
    if name == "log"@ {
        Some(EventKind::Log)
    } else if name == "metric"@ {
        Some(EventKind::Metric)
    } else if name == "trace"@ {
        Some(EventKind::Trace)
    } else {
        None
    }
}

/// What native decoding yields for a record. A native record is a JSON
/// object with exactly one member: its name declares the event kind, and
/// its value must itself be an object, whose members become the event's
/// fields. A missing discriminator or a non-object schema is a decode
/// error.
pub open spec fn native_record_spec(rec: Seq<u8>, source_type: Seq<char>) -> Result<
    Seq<EventView>,
    DecodeReason,
> {
    match json_top_of(rec) {
        None => Err(DecodeReason::InvalidJson),
        Some(top) => match top {
            JsonTopView::Other(_) => Err(DecodeReason::MissingDiscriminator),
            JsonTopView::Object(members) => {
                if members.len() != 1 {
                    Err(DecodeReason::MissingDiscriminator)
                } else {
                    match native_kind_of(members[0].0) {
                        None => Err(DecodeReason::MissingDiscriminator),
                        Some(kind) => match members[0].1 {
                            ValueView::Composite(text) => match json_top_of_text(text) {
                                Some(JsonTopView::Object(inner)) => Ok(
                                    seq![
                                        EventView {
                                            kind: kind,
                                            fields: stamped_fields(inner, source_type),
                                        },
                                    ],
                                ),
                                _ => Err(DecodeReason::SchemaViolation),
                            },
                            _ => Err(DecodeReason::SchemaViolation),
                        },
                    }
                }
            },
        },
    }
}

/// What decoding one framed record yields under each format.
pub open spec fn record_events_spec(
    rec: Seq<u8>,
    format: DecodingFormat,
    source_type: Seq<char>,
) -> Result<Seq<EventView>, DecodeReason> {
    match format {
        DecodingFormat::Bytes => Ok(bytes_record_spec(rec, source_type)),
        DecodingFormat::Json => json_record_spec(rec, source_type),
        DecodingFormat::NativeJson => native_record_spec(rec, source_type),
    }
}

/// The fields a parsed document contributes to its event.
fn json_top_fields(top: JsonTop) -> (r: Vec<(String, Value)>)
    ensures
        r.deep_view() == json_fields_of_top(top@),
{
    match top {
        JsonTop::Object(members) => members,
        JsonTop::Other(value) => {
            let mut fields: Vec<(String, Value)> = Vec::new();
            fields.push(("body".to_owned(), value));
            proof {
                assert(fields.deep_view() =~~= json_fields_of_top(top@));
            }
            fields
        },
    }
}

/// Decode one framed record under the chosen format. Byte decoding always
/// succeeds with one log event whose body is the record; JSON and native
/// decoding fail per record, never beyond it, and the error descriptor
/// carries the record as its excerpt.
pub fn decode_record(rec: &Vec<u8>, format: DecodingFormat, source_type: &str) -> (r: Result<
    Vec<Event>,
    DecodeError,
>)
    ensures
        match r {
            Ok(events) => record_events_spec(rec@, format, source_type@) == Ok::<
                Seq<EventView>,
                DecodeReason,
            >(events.deep_view()),
            Err(e) => record_events_spec(rec@, format, source_type@) == Err::<
                Seq<EventView>,
                DecodeReason,
            >(e.reason) && e@.excerpt == Some(rec@),
        },
{
    match format {
        DecodingFormat::Bytes => {
            let body = copy_all(rec);
            proof {
                assert(body@ =~~= rec@);
            }
            let mut fields: Vec<(String, Value)> = Vec::new();
            fields.push(("body".to_owned(), Value::Bytes(body)));
            proof {
                assert(fields.deep_view() =~~= seq![("body"@, ValueView::Bytes(rec@))]);
            }
            let ev = make_event(EventKind::Log, fields, source_type);
            let mut events: Vec<Event> = Vec::new();
            events.push(ev);
            proof {
                assert(events.deep_view() =~~= bytes_record_spec(rec@, source_type@));
            }
            Ok(events)
        },
        DecodingFormat::Json => {
            match parse_json_bytes(rec.as_slice()) {
                None => Err(
                    DecodeError {
                        reason: DecodeReason::InvalidJson,
                        excerpt: Some(copy_all(rec)),
                    },
                ),
                Some(top) => {
                    let ghost top_view = top@;
                    let fields = json_top_fields(top);
                    let ev = make_event(EventKind::Log, fields, source_type);
                    let mut events: Vec<Event> = Vec::new();
                    events.push(ev);
                    proof {
                        assert(events.deep_view() =~~= seq![
                            EventView {
                                kind: EventKind::Log,
                                fields: stamped_fields(json_fields_of_top(top_view), source_type@),
                            },
                        ]);
                    }
                    Ok(events)
                },
            }
        },
        DecodingFormat::NativeJson => decode_native_record(rec, source_type),
    }
}

/// Native decoding of one record, as `native_record_spec` states it.
fn decode_native_record(rec: &Vec<u8>, source_type: &str) -> (r: Result<Vec<Event>, DecodeError>)
    ensures
        match r {
            Ok(events) => native_record_spec(rec@, source_type@) == Ok::<
                Seq<EventView>,
                DecodeReason,
            >(events.deep_view()),
            Err(e) => native_record_spec(rec@, source_type@) == Err::<
                Seq<EventView>,
                DecodeReason,
            >(e.reason) && e@.excerpt == Some(rec@),
        },
{
    match parse_json_bytes(rec.as_slice()) {
        None => Err(
            DecodeError {
                reason: DecodeReason::InvalidJson,
                excerpt: Some(copy_all(rec)),
            },
        ),
        Some(JsonTop::Other(_)) => Err(
            DecodeError {
                reason: DecodeReason::MissingDiscriminator,
                excerpt: Some(copy_all(rec)),
            },
        ),
        Some(JsonTop::Object(members)) => {
            if members.len() != 1 {
                return Err(
                    DecodeError {
                        reason: DecodeReason::MissingDiscriminator,
                        excerpt: Some(copy_all(rec)),
                    },
                );
            }
            let ghost members_view = members.deep_view();
            let mut members = members;
            let pair = members.remove(0);
            proof {
                assert(members_view[0] == pair.deep_view());
            }
            let log_name: String = "log".to_owned();
            let metric_name: String = "metric".to_owned();
            let trace_name: String = "trace".to_owned();
            let kind_opt: Option<EventKind> = if pair.0 == log_name {
                Some(EventKind::Log)
            } else if pair.0 == metric_name {
                Some(EventKind::Metric)
            } else if pair.0 == trace_name {
                Some(EventKind::Trace)
            } else {
                None
            };
            proof {
                assert(kind_opt == native_kind_of(members_view[0].0));
            }
            match kind_opt {
                None => Err(
                    DecodeError {
                        reason: DecodeReason::MissingDiscriminator,
                        excerpt: Some(copy_all(rec)),
                    },
                ),
                Some(kind) => {
                    match pair.1 {
                        Value::Composite(text) => {
                            match parse_json_text(text.as_str()) {
                                Some(JsonTop::Object(inner)) => {
                                    let ghost inner_view = inner.deep_view();
                                    let ev = make_event(kind, inner, source_type);
                                    let mut events: Vec<Event> = Vec::new();
                                    events.push(ev);
                                    proof {
                                        assert(events.deep_view() =~~= seq![
                                            EventView {
                                                kind: kind,
                                                fields: stamped_fields(inner_view, source_type@),
                                            },
                                        ]);
                                    }
                                    Ok(events)
                                },
                                _ => Err(
                                    DecodeError {
                                        reason: DecodeReason::SchemaViolation,
                                        excerpt: Some(copy_all(rec)),
                                    },
                                ),
                            }
                        },
                        _ => Err(
                            DecodeError {
                                reason: DecodeReason::SchemaViolation,
                                excerpt: Some(copy_all(rec)),
                            },
                        ),
                    }
                },
            }
        },
    }
}

// ------------------------------------------------------------------
// Whole-payload decoding
// ------------------------------------------------------------------

/// The events of the first `k` framed records, in framing order.
pub open spec fn payload_events_upto(
    records: Seq<Seq<u8>>,
    format: DecodingFormat,
    source_type: Seq<char>,
    k: int,
) -> Seq<EventView>
    decreases k,
{
    if k <= 0 {
        Seq::empty()
    } else {
        payload_events_upto(records, format, source_type, k - 1) + (match record_events_spec(
            records[k - 1],
            format,
            source_type,
        ) {
            Ok(events) => events,
            Err(_) => Seq::empty(),
        })
    }
}

/// The error descriptors of the first `k` framed records.
pub open spec fn payload_errors_upto(
    records: Seq<Seq<u8>>,
    format: DecodingFormat,
    source_type: Seq<char>,
    k: int,
) -> Seq<DecodeErrorView>
    decreases k,
{
    if k <= 0 {
        Seq::empty()
    } else {
        payload_errors_upto(records, format, source_type, k - 1) + (match record_events_spec(
            records[k - 1],
            format,
            source_type,
        ) {
            Ok(_) => Seq::empty(),
            Err(reason) => seq![DecodeErrorView { reason, excerpt: Some(records[k - 1]) }],
        })
    }
}

/// Every event a payload decodes to, in order: framing first, then each
/// record under the format.
pub open spec fn payload_events_spec(
    payload: Seq<u8>,
    framing: FramingStrategy,
    format: DecodingFormat,
    source_type: Seq<char>,
) -> Seq<EventView> {
    let records = framed(payload, framing).0;
    payload_events_upto(records, format, source_type, records.len() as int)
}

/// Every error descriptor a payload decodes to: one per failed record,
/// and one for a malformed framing tail.
pub open spec fn payload_errors_spec(
    payload: Seq<u8>,
    framing: FramingStrategy,
    format: DecodingFormat,
    source_type: Seq<char>,
) -> Seq<DecodeErrorView> {
    let (records, tail) = framed(payload, framing);
    payload_errors_upto(records, format, source_type, records.len() as int) + (match tail {
        None => Seq::empty(),
        Some(t) => seq![
            DecodeErrorView { reason: DecodeReason::MalformedFraming, excerpt: Some(t) },
        ],
    })
}

/// Decode one payload: frame it, decode each record, and stamp every
/// produced event. A record that fails yields its error descriptor and
/// zero events; the others still decode.
pub fn decode_payload(
    payload: &Vec<u8>,
    framing: FramingStrategy,
    format: DecodingFormat,
    source_type: &str,
) -> (r: DecodeOutcome)
    ensures
        r.events.deep_view() == payload_events_spec(payload@, framing, format, source_type@),
        r.errors.deep_view() == payload_errors_spec(payload@, framing, format, source_type@),
{
    let (records, tail) = frame_payload(payload, framing);
    let ghost records_view = records.deep_view();
    let mut events: Vec<Event> = Vec::new();
    let mut errors: Vec<DecodeError> = Vec::new();
    let mut k: usize = 0;
    while k < records.len()
        invariant
            k <= records@.len(),
            records.deep_view() == records_view,
            records_view.len() == records@.len(),
            events.deep_view() == payload_events_upto(records_view, format, source_type@, k as int),
            errors.deep_view() == payload_errors_upto(records_view, format, source_type@, k as int),
        decreases records@.len() - k,
    {
        let ghost events_pre = events.deep_view();
        let ghost errors_pre = errors.deep_view();
        proof {
            assert(records_view[k as int] == records@[k as int]@);
        }
        match decode_record(&records[k], format, source_type) {
            Ok(mut evs) => {
                let ghost evs_view = evs.deep_view();
                events.append(&mut evs);
                proof {
                    assert(events.deep_view() =~~= events_pre + evs_view);
                    assert(errors.deep_view() =~~= payload_errors_upto(
                        records_view,
                        format,
                        source_type@,
                        k + 1 as int,
                    ));
                }
            },
            Err(e) => {
                let ghost e_view = e@;
                errors.push(e);
                proof {
                    assert(errors.deep_view() =~~= errors_pre + seq![e_view]);
                    assert(events.deep_view() =~~= payload_events_upto(
                        records_view,
                        format,
                        source_type@,
                        k + 1 as int,
                    ));
                }
            },
        }
        k = k + 1;
    }
    match tail {
        None => {
            proof {
                assert(errors.deep_view() =~~= payload_errors_spec(
                    payload@,
                    framing,
                    format,
                    source_type@,
                ));
            }
            DecodeOutcome { events, errors }
        },
        Some(t) => {
            let ghost errors_pre = errors.deep_view();
            let ghost t_view = t@;
            errors.push(DecodeError { reason: DecodeReason::MalformedFraming, excerpt: Some(t) });
            proof {
                assert(errors.deep_view() =~~= errors_pre + seq![
                    DecodeErrorView {
                        reason: DecodeReason::MalformedFraming,
                        excerpt: Some(t_view),
                    },
                ]);
            }
            DecodeOutcome { events, errors }
        },
    }
}

/// Law: byte decoding of any non-empty whole-body payload yields
/// exactly one log event whose body field equals the payload, with the
/// `source_type` tag as its only other field.
pub proof fn lemma_bytes_decode_whole_body(payload: Seq<u8>, source_type: Seq<char>)
    requires
        payload.len() > 0,
    ensures
        payload_events_spec(
            payload,
            FramingStrategy::WholeBody,
            DecodingFormat::Bytes,
            source_type,
        ).len() == 1,
        payload_events_spec(
            payload,
            FramingStrategy::WholeBody,
            DecodingFormat::Bytes,
            source_type,
        )[0].kind == EventKind::Log,
        payload_events_spec(
            payload,
            FramingStrategy::WholeBody,
            DecodingFormat::Bytes,
            source_type,
        )[0].fields =~= seq![
            ("body"@, ValueView::Bytes(payload)),
            (crate::event::source_type_key(), ValueView::Str(source_type)),
        ],
        payload_errors_spec(
            payload,
            FramingStrategy::WholeBody,
            DecodingFormat::Bytes,
            source_type,
        ).len() == 0,
{
    let records = framed(payload, FramingStrategy::WholeBody).0;
    assert(records =~= seq![payload]);
    assert(payload_events_upto(records, DecodingFormat::Bytes, source_type, 0)
        =~= Seq::<EventView>::empty());
    assert(payload_events_upto(records, DecodingFormat::Bytes, source_type, 1) =~= bytes_record_spec(
        payload,
        source_type,
    ));
    assert(payload_errors_upto(records, DecodingFormat::Bytes, source_type, 0)
        =~= Seq::<DecodeErrorView>::empty());
    assert(payload_errors_upto(records, DecodingFormat::Bytes, source_type, 1)
        =~= Seq::<DecodeErrorView>::empty());
    proof_fields_of_single_body(payload, source_type);
}

/// The stamp on a lone body field: the body field keeps its place and
/// the tag stands last.
proof fn proof_fields_of_single_body(payload: Seq<u8>, source_type: Seq<char>)
    ensures
        stamped_fields(seq![("body"@, ValueView::Bytes(payload))], source_type) =~= seq![
            ("body"@, ValueView::Bytes(payload)),
            (crate::event::source_type_key(), ValueView::Str(source_type)),
        ],
{
    reveal_strlit("body");
    reveal_strlit("source_type");
    let body_fields = seq![("body"@, ValueView::Bytes(payload))];
    assert("body"@.len() != crate::event::source_type_key().len());
    assert(body_fields.drop_first() =~= Seq::<(Seq<char>, ValueView)>::empty());
    assert(without_key(
        Seq::<(Seq<char>, ValueView)>::empty(),
        crate::event::source_type_key(),
    ) =~= Seq::<(Seq<char>, ValueView)>::empty());
    assert(without_key(body_fields, crate::event::source_type_key()) =~= body_fields);
}

/// Law: JSON decoding of a whole-body payload yields, per document,
/// exactly one log event whose fields mirror the document's top-level
/// members — and on a payload that does not parse, zero events and
/// exactly one decode error descriptor.
pub proof fn lemma_json_decode_whole_body(payload: Seq<u8>, source_type: Seq<char>)
    requires
        payload.len() > 0,
    ensures
        json_top_of(payload) is None ==> payload_events_spec(
            payload,
            FramingStrategy::WholeBody,
            DecodingFormat::Json,
            source_type,
        ).len() == 0,
        json_top_of(payload) is None ==> payload_errors_spec(
            payload,
            FramingStrategy::WholeBody,
            DecodingFormat::Json,
            source_type,
        ) =~= seq![
            DecodeErrorView { reason: DecodeReason::InvalidJson, excerpt: Some(payload) },
        ],
        json_top_of(payload) matches Some(top) ==> payload_events_spec(
            payload,
            FramingStrategy::WholeBody,
            DecodingFormat::Json,
            source_type,
        ) =~= seq![
            EventView {
                kind: EventKind::Log,
                fields: stamped_fields(json_fields_of_top(top), source_type),
            },
        ],
        json_top_of(payload) is Some ==> payload_errors_spec(
            payload,
            FramingStrategy::WholeBody,
            DecodingFormat::Json,
            source_type,
        ).len() == 0,
{
    let records = framed(payload, FramingStrategy::WholeBody).0;
    assert(records =~= seq![payload]);
    assert(payload_events_upto(records, DecodingFormat::Json, source_type, 0)
        =~= Seq::<EventView>::empty());
    assert(payload_errors_upto(records, DecodingFormat::Json, source_type, 0)
        =~= Seq::<DecodeErrorView>::empty());
    match json_top_of(payload) {
        None => {
            assert(payload_events_upto(records, DecodingFormat::Json, source_type, 1)
                =~= Seq::<EventView>::empty());
            assert(payload_errors_upto(records, DecodingFormat::Json, source_type, 1) =~= seq![
                DecodeErrorView { reason: DecodeReason::InvalidJson, excerpt: Some(payload) },
            ]);
        },
        Some(top) => {
            assert(payload_events_upto(records, DecodingFormat::Json, source_type, 1) =~= seq![
                EventView {
                    kind: EventKind::Log,
                    fields: stamped_fields(json_fields_of_top(top), source_type),
                },
            ]);
            assert(payload_errors_upto(records, DecodingFormat::Json, source_type, 1)
                =~= Seq::<DecodeErrorView>::empty());
        },
    }
}

} // verus!
