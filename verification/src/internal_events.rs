//! The internal event bus: each notable lifecycle or error occurrence is
//! a small record type whose `emit` renders it to one instrumentation
//! record — a diagnostic message with its fields, plus the counters to
//! increment. Emission is data-only here; the telemetry edge performs
//! the increments and never reports back.

use vstd::prelude::*;
use crate::decode::{
    decode_payload, payload_errors_spec, payload_events_spec, DecodeReason, DecodingFormat,
    FramingStrategy,
};
use crate::event::Event;

verus! {

/// The `error_type` tag of the current counter taxonomy.
#[derive(Clone, Copy, PartialEq, Eq, Structural, Debug)]
pub enum ErrorType {
    ConnectionFailed,
    WriterFailed,
    ReaderFailed,
    ParserFailed,
}

/// The `stage` tag of the current counter taxonomy.
#[derive(Clone, Copy, PartialEq, Eq, Structural, Debug)]
pub enum ErrorStage {
    Receiving,
    Processing,
    Sending,
}

/// The optional `error_code` tag.
#[derive(Clone, Copy, PartialEq, Eq, Structural, Debug)]
pub enum ErrorCode {
    FailedConnecting,
    DeleteSocketFile,
}

/// The transport mode tag carried by the legacy per-mode counters.
#[derive(Clone, Copy, PartialEq, Eq, Structural, Debug)]
pub enum SocketMode {
    Unix,
}

/// One counter increment (always by one) with its tag set. The per-mode
/// counters are the legacy taxonomy, kept for backward compatibility
/// beside the generic `component_errors_total`.
#[derive(Clone, Copy, PartialEq, Eq, Debug)]
pub enum CounterInc {
    ConnectionEstablished { mode: SocketMode },
    ConnectionFailed { mode: SocketMode },
    ConnectionErrors { mode: SocketMode },
    ComponentErrors { error_type: ErrorType, stage: ErrorStage, error_code: Option<ErrorCode> },
}

/// One structured field of a diagnostic line.
#[derive(Clone, PartialEq, Eq, Debug)]
pub enum DiagField {
    Error(String),
    Path(String),
    Endpoint(String),
    Reason(DecodeReason),
    ErrorCode(ErrorCode),
    ErrorType(ErrorType),
    Stage(ErrorStage),
}

/// One instrumentation record: the diagnostic message and fields to
/// render, and the counters to increment. Ephemeral: constructed,
/// handed to the telemetry edge, and discarded within one call.
#[derive(Clone, PartialEq, Eq, Debug)]
pub struct InternalEventRecord {
    pub message: String,
    pub fields: Vec<DiagField>,
    pub counters: Vec<CounterInc>,
}

// ------------------------------------------------------------------
// The shape of each record, as a predicate the runtime contracts share
// ------------------------------------------------------------------

/// The record of an established unix-socket connection.
pub open spec fn is_connection_established_record(r: InternalEventRecord, path: Seq<char>) -> bool {
    &&& r.message@ == "Connected."@
    &&& r.fields@.len() == 1
    &&& r.fields@[0] matches DiagField::Path(p) && p@ == path
    &&& r.counters@ =~= seq![CounterInc::ConnectionEstablished { mode: SocketMode::Unix }]
}

/// The record of a failed outgoing unix-socket connection.
pub open spec fn is_outgoing_connection_error_record(
    r: InternalEventRecord,
    error: Seq<char>,
) -> bool {
    &&& r.message@ == "Unable to connect."@
    &&& r.fields@.len() == 4
    &&& r.fields@[0] matches DiagField::Error(e) && e@ == error
    &&& r.fields@[1] == DiagField::ErrorCode(ErrorCode::FailedConnecting)
    &&& r.fields@[2] == DiagField::ErrorType(ErrorType::ConnectionFailed)
    &&& r.fields@[3] == DiagField::Stage(ErrorStage::Sending)
    &&& r.counters@ =~= seq![
        CounterInc::ComponentErrors {
            error_type: ErrorType::ConnectionFailed,
            stage: ErrorStage::Sending,
            error_code: Some(ErrorCode::FailedConnecting),
        },
        CounterInc::ConnectionFailed { mode: SocketMode::Unix },
    ]
}

/// The record of a unix-socket error mid-use.
pub open spec fn is_unix_socket_error_record(
    r: InternalEventRecord,
    error: Seq<char>,
    path: Seq<char>,
) -> bool {
    &&& r.message@ == "Unix socket error."@
    &&& r.fields@.len() == 4
    &&& r.fields@[0] matches DiagField::Error(e) && e@ == error
    &&& r.fields@[1] matches DiagField::Path(p) && p@ == path
    &&& r.fields@[2] == DiagField::ErrorType(ErrorType::ConnectionFailed)
    &&& r.fields@[3] == DiagField::Stage(ErrorStage::Processing)
    &&& r.counters@ =~= seq![
        CounterInc::ComponentErrors {
            error_type: ErrorType::ConnectionFailed,
            stage: ErrorStage::Processing,
            error_code: None,
        },
        CounterInc::ConnectionErrors { mode: SocketMode::Unix },
    ]
}

/// The record of a failed unix-socket file removal at shutdown, tagged
/// `delete_socket_file`.
pub open spec fn is_file_delete_error_record(
    r: InternalEventRecord,
    path: Seq<char>,
    error: Seq<char>,
) -> bool {
    &&& r.message@ == "Failed in deleting unix socket file."@
    &&& r.fields@.len() == 5
    &&& r.fields@[0] matches DiagField::Path(p) && p@ == path
    &&& r.fields@[1] matches DiagField::Error(e) && e@ == error
    &&& r.fields@[2] == DiagField::ErrorCode(ErrorCode::DeleteSocketFile)
    &&& r.fields@[3] == DiagField::ErrorType(ErrorType::WriterFailed)
    &&& r.fields@[4] == DiagField::Stage(ErrorStage::Processing)
    &&& r.counters@ =~= seq![
        CounterInc::ComponentErrors {
            error_type: ErrorType::WriterFailed,
            stage: ErrorStage::Processing,
            error_code: Some(ErrorCode::DeleteSocketFile),
        },
    ]
}

/// The record of a failed poll-mode fetch attempt.
pub open spec fn is_endpoint_error_record(
    r: InternalEventRecord,
    endpoint: Seq<char>,
    error: Seq<char>,
) -> bool {
    &&& r.message@ == "HTTP request error."@
    &&& r.fields@.len() == 4
    &&& r.fields@[0] matches DiagField::Endpoint(p) && p@ == endpoint
    &&& r.fields@[1] matches DiagField::Error(e) && e@ == error
    &&& r.fields@[2] == DiagField::ErrorType(ErrorType::ConnectionFailed)
    &&& r.fields@[3] == DiagField::Stage(ErrorStage::Receiving)
    &&& r.counters@ =~= seq![
        CounterInc::ComponentErrors {
            error_type: ErrorType::ConnectionFailed,
            stage: ErrorStage::Receiving,
            error_code: None,
        },
    ]
}

/// The record of one record (or tail) that failed to decode.
pub open spec fn is_decode_error_record(r: InternalEventRecord, reason: DecodeReason) -> bool {
    &&& r.message@ == "Failed to decode record."@
    &&& r.fields@ =~= seq![
        DiagField::Reason(reason),
        DiagField::ErrorType(ErrorType::ParserFailed),
        DiagField::Stage(ErrorStage::Processing),
    ]
    &&& r.counters@ =~= seq![
        CounterInc::ComponentErrors {
            error_type: ErrorType::ParserFailed,
            stage: ErrorStage::Processing,
            error_code: None,
        },
    ]
}

/// A connection was accepted or established on a unix socket.
#[derive(Clone, PartialEq, Eq, Debug)]
pub struct UnixSocketConnectionEstablished {
    pub path: String,
}

impl UnixSocketConnectionEstablished {
    /// One debug line with the socket path, and the legacy
    /// per-mode established counter.
    pub fn emit(self) -> (r: InternalEventRecord)
        ensures
            r.message@ == "Connected."@,
            r.fields@ =~= seq![DiagField::Path(self.path)],
            r.counters@ =~= seq![CounterInc::ConnectionEstablished { mode: SocketMode::Unix }],
            is_connection_established_record(r, self.path@),
    {
        let mut fields: Vec<DiagField> = Vec::new();
        fields.push(DiagField::Path(self.path));
        let mut counters: Vec<CounterInc> = Vec::new();
        counters.push(CounterInc::ConnectionEstablished { mode: SocketMode::Unix });
        InternalEventRecord { message: "Connected.".to_owned(), fields, counters }
    }
}

/// An outgoing unix-socket connection could not be established.
#[derive(Clone, PartialEq, Eq, Debug)]
pub struct UnixSocketOutgoingConnectionError {
    pub error: String,
}

impl UnixSocketOutgoingConnectionError {
    /// The shared outgoing-connection error occurrence — one error line
    /// and the generic error counter tagged `failed_connecting` — plus
    /// the deprecated per-mode failed counter.
    pub fn emit(self) -> (r: InternalEventRecord)
        ensures
            r.message@ == "Unable to connect."@,
            r.fields@ =~= seq![
                DiagField::Error(self.error),
                DiagField::ErrorCode(ErrorCode::FailedConnecting),
                DiagField::ErrorType(ErrorType::ConnectionFailed),
                DiagField::Stage(ErrorStage::Sending),
            ],
            r.counters@ =~= seq![
                CounterInc::ComponentErrors {
                    error_type: ErrorType::ConnectionFailed,
                    stage: ErrorStage::Sending,
                    error_code: Some(ErrorCode::FailedConnecting),
                },
                CounterInc::ConnectionFailed { mode: SocketMode::Unix },
            ],
            is_outgoing_connection_error_record(r, self.error@),
    {
        let mut fields: Vec<DiagField> = Vec::new();
        fields.push(DiagField::Error(self.error));
        fields.push(DiagField::ErrorCode(ErrorCode::FailedConnecting));
        fields.push(DiagField::ErrorType(ErrorType::ConnectionFailed));
        fields.push(DiagField::Stage(ErrorStage::Sending));
        let mut counters: Vec<CounterInc> = Vec::new();
        counters.push(
            CounterInc::ComponentErrors {
                error_type: ErrorType::ConnectionFailed,
                stage: ErrorStage::Sending,
                error_code: Some(ErrorCode::FailedConnecting),
            },
        );
        counters.push(CounterInc::ConnectionFailed { mode: SocketMode::Unix });
        InternalEventRecord { message: "Unable to connect.".to_owned(), fields, counters }
    }
}

/// A unix-socket connection failed mid-use.
#[derive(Clone, PartialEq, Eq, Debug)]
pub struct UnixSocketError {
    pub error: String,
    pub path: String,
}

impl UnixSocketError {
    /// One error line, the generic error counter, and the deprecated
    /// per-mode errors counter.
    pub fn emit(self) -> (r: InternalEventRecord)
        ensures
            r.message@ == "Unix socket error."@,
            r.fields@ =~= seq![
                DiagField::Error(self.error),
                DiagField::Path(self.path),
                DiagField::ErrorType(ErrorType::ConnectionFailed),
                DiagField::Stage(ErrorStage::Processing),
            ],
            r.counters@ =~= seq![
                CounterInc::ComponentErrors {
                    error_type: ErrorType::ConnectionFailed,
                    stage: ErrorStage::Processing,
                    error_code: None,
                },
                CounterInc::ConnectionErrors { mode: SocketMode::Unix },
            ],
            is_unix_socket_error_record(r, self.error@, self.path@),
    {
        let mut fields: Vec<DiagField> = Vec::new();
        fields.push(DiagField::Error(self.error));
        fields.push(DiagField::Path(self.path));
        fields.push(DiagField::ErrorType(ErrorType::ConnectionFailed));
        fields.push(DiagField::Stage(ErrorStage::Processing));
        let mut counters: Vec<CounterInc> = Vec::new();
        counters.push(
            CounterInc::ComponentErrors {
                error_type: ErrorType::ConnectionFailed,
                stage: ErrorStage::Processing,
                error_code: None,
            },
        );
        counters.push(CounterInc::ConnectionErrors { mode: SocketMode::Unix });
        InternalEventRecord { message: "Unix socket error.".to_owned(), fields, counters }
    }
}

/// The unix-socket file could not be removed at shutdown.
#[derive(Clone, PartialEq, Eq, Debug)]
pub struct UnixSocketFileDeleteError {
    pub path: String,
    pub error: String,
}

impl UnixSocketFileDeleteError {
    /// One error line tagged `delete_socket_file`, and the generic error
    /// counter with the same code. Cleanup failure is reported, never
    /// escalated.
    pub fn emit(self) -> (r: InternalEventRecord)
        ensures
            r.message@ == "Failed in deleting unix socket file."@,
            r.fields@ =~= seq![
                DiagField::Path(self.path),
                DiagField::Error(self.error),
                DiagField::ErrorCode(ErrorCode::DeleteSocketFile),
                DiagField::ErrorType(ErrorType::WriterFailed),
                DiagField::Stage(ErrorStage::Processing),
            ],
            r.counters@ =~= seq![
                CounterInc::ComponentErrors {
                    error_type: ErrorType::WriterFailed,
                    stage: ErrorStage::Processing,
                    error_code: Some(ErrorCode::DeleteSocketFile),
                },
            ],
            is_file_delete_error_record(r, self.path@, self.error@),
    {
        let mut fields: Vec<DiagField> = Vec::new();
        fields.push(DiagField::Path(self.path));
        fields.push(DiagField::Error(self.error));
        fields.push(DiagField::ErrorCode(ErrorCode::DeleteSocketFile));
        fields.push(DiagField::ErrorType(ErrorType::WriterFailed));
        fields.push(DiagField::Stage(ErrorStage::Processing));
        let mut counters: Vec<CounterInc> = Vec::new();
        counters.push(
            CounterInc::ComponentErrors {
                error_type: ErrorType::WriterFailed,
                stage: ErrorStage::Processing,
                error_code: Some(ErrorCode::DeleteSocketFile),
            },
        );
        InternalEventRecord {
            message: "Failed in deleting unix socket file.".to_owned(),
            fields,
            counters,
        }
    }
}

/// A poll-mode fetch attempt failed at the transport: the endpoint was
/// unreachable, answered outside the success range, or failed the TLS
/// or auth handshake.
#[derive(Clone, PartialEq, Eq, Debug)]
pub struct EndpointConnectionError {
    pub endpoint: String,
    pub error: String,
}

impl EndpointConnectionError {
    /// One error line with the endpoint, and the generic error counter
    /// at the receiving stage. Never fatal to the source.
    pub fn emit(self) -> (r: InternalEventRecord)
        ensures
            r.message@ == "HTTP request error."@,
            r.fields@ =~= seq![
                DiagField::Endpoint(self.endpoint),
                DiagField::Error(self.error),
                DiagField::ErrorType(ErrorType::ConnectionFailed),
                DiagField::Stage(ErrorStage::Receiving),
            ],
            r.counters@ =~= seq![
                CounterInc::ComponentErrors {
                    error_type: ErrorType::ConnectionFailed,
                    stage: ErrorStage::Receiving,
                    error_code: None,
                },
            ],
            is_endpoint_error_record(r, self.endpoint@, self.error@),
    {
        let mut fields: Vec<DiagField> = Vec::new();
        fields.push(DiagField::Endpoint(self.endpoint));
        fields.push(DiagField::Error(self.error));
        fields.push(DiagField::ErrorType(ErrorType::ConnectionFailed));
        fields.push(DiagField::Stage(ErrorStage::Receiving));
        let mut counters: Vec<CounterInc> = Vec::new();
        counters.push(
            CounterInc::ComponentErrors {
                error_type: ErrorType::ConnectionFailed,
                stage: ErrorStage::Receiving,
                error_code: None,
            },
        );
        InternalEventRecord { message: "HTTP request error.".to_owned(), fields, counters }
    }
}

/// One record (or the tail of a payload) failed to decode.
#[derive(Clone, PartialEq, Eq, Debug)]
pub struct RecordDecodeError {
    pub reason: DecodeReason,
}

impl RecordDecodeError {
    /// One error line with the reason, and the generic error counter at
    /// the processing stage. Always per record, never beyond it.
    pub fn emit(self) -> (r: InternalEventRecord)
        ensures
            r.message@ == "Failed to decode record."@,
            r.fields@ =~= seq![
                DiagField::Reason(self.reason),
                DiagField::ErrorType(ErrorType::ParserFailed),
                DiagField::Stage(ErrorStage::Processing),
            ],
            r.counters@ =~= seq![
                CounterInc::ComponentErrors {
                    error_type: ErrorType::ParserFailed,
                    stage: ErrorStage::Processing,
                    error_code: None,
                },
            ],
            is_decode_error_record(r, self.reason),
    {
        let mut fields: Vec<DiagField> = Vec::new();
        fields.push(DiagField::Reason(self.reason));
        fields.push(DiagField::ErrorType(ErrorType::ParserFailed));
        fields.push(DiagField::Stage(ErrorStage::Processing));
        let mut counters: Vec<CounterInc> = Vec::new();
        counters.push(
            CounterInc::ComponentErrors {
                error_type: ErrorType::ParserFailed,
                stage: ErrorStage::Processing,
                error_code: None,
            },
        );
        InternalEventRecord { message: "Failed to decode record.".to_owned(), fields, counters }
    }
}

/// Decode one payload and render its errors: the events to forward, and
/// one instrumentation record per record (or tail) that failed to
/// decode — every error branch emits exactly one record.
pub fn decode_payload_reporting(
    payload: &Vec<u8>,
    framing: FramingStrategy,
    format: DecodingFormat,
    source_type: &str,
) -> (r: (Vec<InternalEventRecord>, Vec<Event>))
    ensures
        r.1.deep_view() == payload_events_spec(payload@, framing, format, source_type@),
        r.0@.len() == payload_errors_spec(payload@, framing, format, source_type@).len(),
        forall|i: int|
            0 <= i < r.0@.len() ==> is_decode_error_record(
                #[trigger] r.0@[i],
                payload_errors_spec(payload@, framing, format, source_type@)[i].reason,
            ),
{
    let outcome = decode_payload(payload, framing, format, source_type);
    let ghost errs = payload_errors_spec(payload@, framing, format, source_type@);
    let mut emitted: Vec<InternalEventRecord> = Vec::new();
    let mut k: usize = 0;
    while k < outcome.errors.len()
        invariant
            k <= outcome.errors@.len(),
            outcome.errors.deep_view() == errs,
            outcome.errors@.len() == errs.len(),
            emitted@.len() == k,
            forall|i: int|
                0 <= i < k ==> is_decode_error_record(#[trigger] emitted@[i], errs[i].reason),
        decreases outcome.errors@.len() - k,
    {
        let reason = outcome.errors[k].reason;
        proof {
            assert(errs[k as int].reason == outcome.errors@[k as int]@.reason);
        }
        let record = RecordDecodeError { reason }.emit();
        emitted.push(record);
        k = k + 1;
    }
    (emitted, outcome.events)
}

} // verus!
