//! The connection-driven source runtime: a unix-socket listener that
//! accepts connections and runs an isolated read-decode-forward loop
//! per connection. A per-connection error ends only that connection;
//! the accept loop goes on. On shutdown the listener stops accepting,
//! abandons in-flight connections, removes its socket file best-effort,
//! and acknowledges — a removal failure is reported, never escalated.

use vstd::prelude::*;
use crate::decode::{payload_errors_spec, payload_events_spec, DecodingFormat, FramingStrategy};
use crate::event::Event;
use crate::internal_events::{
    decode_payload_reporting, is_connection_established_record, is_decode_error_record,
    is_file_delete_error_record, is_unix_socket_error_record, InternalEventRecord,
    UnixSocketConnectionEstablished, UnixSocketError, UnixSocketFileDeleteError,
};

verus! {

/// The component type name every event of this source carries.
pub open spec fn unix_source_name() -> Seq<char> {
    "socket"@
}

/// The component type name, for stamping and for tests.
pub fn unix_source_type_name() -> (r: &'static str)
    ensures
        r@ == unix_source_name(),
{
    "socket"
}

/// Fatal failure at source construction: the listening resource could
/// not be established, so the source never starts. The only error
/// class that aborts startup.
#[derive(Clone, PartialEq, Eq, Debug)]
pub struct ConfigurationError {
    pub error: String,
}

/// Configuration of one unix-socket listener source.
pub struct UnixSourceConfig {
    pub path: String,
    pub decoding: DecodingFormat,
    pub framing: FramingStrategy,
}

/// Phase of a connection-driven source task.
#[derive(Clone, Copy, PartialEq, Eq, Structural, Debug)]
pub enum UnixPhase {
    /// Accepting connections and serving the live ones.
    Accepting,
    /// Shutdown arrived: accepting stopped, socket file removal pending.
    CleaningUp,
    /// The acknowledgement was sent and the task has exited.
    Stopped,
}

/// State of one listener task: its phase and the ids of the live
/// connections.
pub struct UnixSourceState {
    pub phase: UnixPhase,
    pub connections: Vec<u64>,
}

/// What the task observed at a suspension point.
pub enum UnixEvent {
    /// A connection was accepted under this id.
    Accepted(u64),
    /// The listener failed to accept; the loop goes on.
    AcceptFailed(String),
    /// One framed chunk of data arrived on this connection.
    Data(u64, Vec<u8>),
    /// The peer closed this connection.
    ConnClosed(u64),
    /// This connection failed: read error or peer reset.
    ConnFailed(u64, String),
    /// The cancellation signal arrived.
    Shutdown,
    /// The socket file removal finished; `Some` carries the OS error.
    FileRemoved(Option<String>),
}

/// One step's worth of listener output.
pub struct UnixStepResult {
    pub state: UnixSourceState,
    /// Instrumentation records to emit, one per occurrence.
    pub emitted: Vec<InternalEventRecord>,
    /// Decoded events to forward, in decode order per connection.
    pub forwarded: Vec<Event>,
    /// Remove the socket file now (best-effort).
    pub remove_file: bool,
    /// Send the completion acknowledgement and exit.
    pub ack: bool,
}

/// Start the listener: a bind failure is fatal and propagates to the
/// caller; otherwise the source starts accepting with no connections.
pub fn start_unix_source(bind_error: Option<String>) -> (r: Result<
    UnixSourceState,
    ConfigurationError,
>)
    ensures
        bind_error matches Some(e) ==> r matches Err(c) && c.error@ == e@,
        bind_error is None ==> (r matches Ok(s) && s.phase == UnixPhase::Accepting
            && s.connections@ == Seq::<u64>::empty()),
{
    match bind_error {
        Some(error) => Err(ConfigurationError { error }),
        None => {
            let s = UnixSourceState { phase: UnixPhase::Accepting, connections: Vec::new() };
            Ok(s)
        },
    }
}

/// The live connections with every occurrence of this id dropped.
pub open spec fn remove_conn(conns: Seq<u64>, id: u64) -> Seq<u64>
    decreases conns.len(),
{
    if conns.len() == 0 {
        Seq::empty()
    } else if conns.first() == id {
        remove_conn(conns.drop_first(), id)
    } else {
        seq![conns.first()] + remove_conn(conns.drop_first(), id)
    }
}

/// The next phase of a listener task.
pub open spec fn unix_phase_step(phase: UnixPhase, event: UnixEvent) -> UnixPhase {
    match phase {
        UnixPhase::Accepting => match event {
            UnixEvent::Shutdown => UnixPhase::CleaningUp,
            _ => UnixPhase::Accepting,
        },
        UnixPhase::CleaningUp => match event {
            UnixEvent::FileRemoved(_) => UnixPhase::Stopped,
            _ => UnixPhase::CleaningUp,
        },
        UnixPhase::Stopped => UnixPhase::Stopped,
    }
}

/// The next set of live connections: accepted ids join, closed and
/// failed ids leave, and shutdown abandons them all.
pub open spec fn unix_conns_step(s: UnixSourceState, event: UnixEvent) -> Seq<u64> {
    if s.phase != UnixPhase::Accepting {
        s.connections@
    } else {
        match event {
            UnixEvent::Accepted(id) => if s.connections@.contains(id) {
                s.connections@
            } else {
                s.connections@.push(id)
            },
            UnixEvent::ConnClosed(id) => remove_conn(s.connections@, id),
            UnixEvent::ConnFailed(id, _) => remove_conn(s.connections@, id),
            UnixEvent::Shutdown => Seq::empty(),
            _ => s.connections@,
        }
    }
}

/// Whether this step sends the completion acknowledgement: exactly the
/// transition into `Stopped`, so it is sent at most once per lifetime.
pub open spec fn unix_acks(phase: UnixPhase, event: UnixEvent) -> bool {
    phase == UnixPhase::CleaningUp && event is FileRemoved
}

/// Whether this step asks for the socket file to be removed.
pub open spec fn unix_removes_file(phase: UnixPhase, event: UnixEvent) -> bool {
    phase == UnixPhase::Accepting && event is Shutdown
}

/// Membership test on the live connections.
fn conns_contains(conns: &Vec<u64>, id: u64) -> (r: bool)
    ensures
        r == conns@.contains(id),
{
    let mut i: usize = 0;
    while i < conns.len()
        invariant
            i <= conns@.len(),
            forall|j: int| 0 <= j < i ==> conns@[j] != id,
        decreases conns@.len() - i,
    {
        if conns[i] == id {
            return true;
        }
        i = i + 1;
    }
    false
}

/// The live connections without this id.
fn conns_remove(conns: &Vec<u64>, id: u64) -> (r: Vec<u64>)
    ensures
        r@ == remove_conn(conns@, id),
{
    let mut out: Vec<u64> = Vec::new();
    let mut i: usize = 0;
    proof {
        assert(conns@.subrange(0, conns@.len() as int) =~= conns@);
        assert(out@ + remove_conn(conns@, id) =~= remove_conn(conns@, id));
    }
    while i < conns.len()
        invariant
            i <= conns@.len(),
            remove_conn(conns@, id) == out@ + remove_conn(
                conns@.subrange(i as int, conns@.len() as int),
                id,
            ),
        decreases conns@.len() - i,
    {
        let ghost suffix = conns@.subrange(i as int, conns@.len() as int);
        proof {
            assert(suffix.first() == conns@[i as int]);
            assert(suffix.drop_first() =~= conns@.subrange(i + 1 as int, conns@.len() as int));
        }
        let ghost out_pre = out@;
        if conns[i] != id {
            out.push(conns[i]);
            proof {
                assert(out@ =~= out_pre.push(conns@[i as int]));
                assert(out_pre + remove_conn(suffix, id) =~= out@ + remove_conn(
                    suffix.drop_first(),
                    id,
                ));
            }
        }
        i = i + 1;
    }
    proof {
        assert(conns@.subrange(conns@.len() as int, conns@.len() as int) =~= Seq::<u64>::empty());
        assert(out@ =~= remove_conn(conns@, id));
    }
    out
}

/// One step of the listener task: from the current state and what the
/// driver observed, the next state and everything the task does before
/// it suspends again. Each error branch emits exactly one record; a
/// connection error ends only that connection; a socket file removal
/// failure is reported once and the acknowledgement is still sent.
pub fn unix_step(cfg: &UnixSourceConfig, state: UnixSourceState, event: UnixEvent) -> (r:
    UnixStepResult)
    ensures
        r.state.phase == unix_phase_step(state.phase, event),
        r.state.connections@ == unix_conns_step(state, event),
        r.ack == unix_acks(state.phase, event),
        r.remove_file == unix_removes_file(state.phase, event),
        state.phase == UnixPhase::Accepting ==> match event {
            UnixEvent::Accepted(id) => {
                &&& r.forwarded@.len() == 0
                &&& if state.connections@.contains(id) {
                    r.emitted@.len() == 0
                } else {
                    r.emitted@.len() == 1 && is_connection_established_record(
                        r.emitted@[0],
                        cfg.path@,
                    )
                }
            },
            UnixEvent::AcceptFailed(err) => {
                &&& r.forwarded@.len() == 0
                &&& r.emitted@.len() == 1
                &&& is_unix_socket_error_record(r.emitted@[0], err@, cfg.path@)
            },
            UnixEvent::Data(id, p) => {
                if state.connections@.contains(id) {
                    &&& r.forwarded.deep_view() == payload_events_spec(
                        p@,
                        cfg.framing,
                        cfg.decoding,
                        unix_source_name(),
                    )
                    &&& r.emitted@.len() == payload_errors_spec(
                        p@,
                        cfg.framing,
                        cfg.decoding,
                        unix_source_name(),
                    ).len()
                    &&& forall|i: int|
                        0 <= i < r.emitted@.len() ==> is_decode_error_record(
                            #[trigger] r.emitted@[i],
                            payload_errors_spec(p@, cfg.framing, cfg.decoding, unix_source_name())[
                                i
                            ].reason,
                        )
                } else {
                    r.forwarded@.len() == 0 && r.emitted@.len() == 0
                }
            },
            UnixEvent::ConnFailed(id, err) => {
                &&& r.forwarded@.len() == 0
                &&& if state.connections@.contains(id) {
                    r.emitted@.len() == 1 && is_unix_socket_error_record(
                        r.emitted@[0],
                        err@,
                        cfg.path@,
                    )
                } else {
                    r.emitted@.len() == 0
                }
            },
            _ => r.forwarded@.len() == 0 && r.emitted@.len() == 0,
        },
        state.phase == UnixPhase::CleaningUp ==> match event {
            UnixEvent::FileRemoved(outcome) => {
                &&& r.forwarded@.len() == 0
                &&& match outcome {
                    Some(err) => r.emitted@.len() == 1 && is_file_delete_error_record(
                        r.emitted@[0],
                        cfg.path@,
                        err@,
                    ),
                    None => r.emitted@.len() == 0,
                }
            },
            _ => r.forwarded@.len() == 0 && r.emitted@.len() == 0,
        },
        state.phase == UnixPhase::Stopped ==> r.forwarded@.len() == 0 && r.emitted@.len() == 0,
{
    match state.phase {
        UnixPhase::Accepting => match event {
            UnixEvent::Accepted(id) => {
                if conns_contains(&state.connections, id) {
                    UnixStepResult {
                        state,
                        emitted: Vec::new(),
                        forwarded: Vec::new(),
                        remove_file: false,
                        ack: false,
                    }
                } else {
                    let record = UnixSocketConnectionEstablished {
                        path: cfg.path.clone(),
                    }.emit();
                    let mut emitted: Vec<InternalEventRecord> = Vec::new();
                    emitted.push(record);
                    let mut connections = state.connections;
                    connections.push(id);
                    UnixStepResult {
                        state: UnixSourceState { phase: UnixPhase::Accepting, connections },
                        emitted,
                        forwarded: Vec::new(),
                        remove_file: false,
                        ack: false,
                    }
                }
            },
            UnixEvent::AcceptFailed(err) => {
                let record = UnixSocketError { error: err, path: cfg.path.clone() }.emit();
                let mut emitted: Vec<InternalEventRecord> = Vec::new();
                emitted.push(record);
                UnixStepResult {
                    state,
                    emitted,
                    forwarded: Vec::new(),
                    remove_file: false,
                    ack: false,
                }
            },
            UnixEvent::Data(id, p) => {
                if conns_contains(&state.connections, id) {
                    let (emitted, forwarded) = decode_payload_reporting(
                        &p,
                        cfg.framing,
                        cfg.decoding,
                        unix_source_type_name(),
                    );
                    UnixStepResult { state, emitted, forwarded, remove_file: false, ack: false }
                } else {
                    UnixStepResult {
                        state,
                        emitted: Vec::new(),
                        forwarded: Vec::new(),
                        remove_file: false,
                        ack: false,
                    }
                }
            },
            UnixEvent::ConnClosed(id) => {
                let connections = conns_remove(&state.connections, id);
                UnixStepResult {
                    state: UnixSourceState { phase: UnixPhase::Accepting, connections },
                    emitted: Vec::new(),
                    forwarded: Vec::new(),
                    remove_file: false,
                    ack: false,
                }
            },
            UnixEvent::ConnFailed(id, err) => {
                if conns_contains(&state.connections, id) {
                    let record = UnixSocketError { error: err, path: cfg.path.clone() }.emit();
                    let mut emitted: Vec<InternalEventRecord> = Vec::new();
                    emitted.push(record);
                    let connections = conns_remove(&state.connections, id);
                    UnixStepResult {
                        state: UnixSourceState { phase: UnixPhase::Accepting, connections },
                        emitted,
                        forwarded: Vec::new(),
                        remove_file: false,
                        ack: false,
                    }
                } else {
                    let connections = conns_remove(&state.connections, id);
                    UnixStepResult {
                        state: UnixSourceState { phase: UnixPhase::Accepting, connections },
                        emitted: Vec::new(),
                        forwarded: Vec::new(),
                        remove_file: false,
                        ack: false,
                    }
                }
            },
            UnixEvent::Shutdown => UnixStepResult {
                state: UnixSourceState { phase: UnixPhase::CleaningUp, connections: Vec::new() },
                emitted: Vec::new(),
                forwarded: Vec::new(),
                remove_file: true,
                ack: false,
            },
            UnixEvent::FileRemoved(_) => UnixStepResult {
                state,
                emitted: Vec::new(),
                forwarded: Vec::new(),
                remove_file: false,
                ack: false,
            },
        },
        UnixPhase::CleaningUp => match event {
            UnixEvent::FileRemoved(outcome) => {
                let mut emitted: Vec<InternalEventRecord> = Vec::new();
                match outcome {
                    Some(err) => {
                        let record = UnixSocketFileDeleteError {
                            path: cfg.path.clone(),
                            error: err,
                        }.emit();
                        emitted.push(record);
                    },
                    None => {},
                }
                UnixStepResult {
                    state: UnixSourceState { phase: UnixPhase::Stopped, ..state },
                    emitted,
                    forwarded: Vec::new(),
                    remove_file: false,
                    ack: true,
                }
            },
            _ => UnixStepResult {
                state,
                emitted: Vec::new(),
                forwarded: Vec::new(),
                remove_file: false,
                ack: false,
            },
        },
        UnixPhase::Stopped => UnixStepResult {
            state,
            emitted: Vec::new(),
            forwarded: Vec::new(),
            remove_file: false,
            ack: false,
        },
    }
}

/// Law: a socket-file removal failure during shutdown yields exactly
/// one cleanup-error record, tagged `delete_socket_file`, and the
/// acknowledgement is still sent — cleanup failure never blocks
/// shutdown completion.
pub proof fn lemma_cleanup_failure_still_acks(s: UnixSourceState, event: UnixEvent)
    requires
        s.phase == UnixPhase::CleaningUp,
        event is FileRemoved,
    ensures
        unix_acks(s.phase, event),
        unix_phase_step(s.phase, event) == UnixPhase::Stopped,
{
}

} // verus!
