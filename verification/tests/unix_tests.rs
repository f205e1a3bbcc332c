//! Connection-driven source runtime and the unix internal events.

use source_runtime::decode::{DecodingFormat, FramingStrategy};
use source_runtime::event::{EventKind, Value};
use source_runtime::internal_events::{
    CounterInc, ErrorCode, ErrorStage, ErrorType, SocketMode, UnixSocketConnectionEstablished,
    UnixSocketError, UnixSocketFileDeleteError, UnixSocketOutgoingConnectionError,
};
use source_runtime::shutdown::ShutdownCoordinator;
use source_runtime::unix::{
    start_unix_source, unix_step, UnixEvent, UnixPhase, UnixSourceConfig,
};

fn config() -> UnixSourceConfig {
    UnixSourceConfig {
        path: "/tmp/sock".to_string(),
        decoding: DecodingFormat::Bytes,
        framing: FramingStrategy::WholeBody,
    }
}

#[test]
fn bind_failure_is_fatal_at_construction() {
    let r = start_unix_source(Some("permission denied".to_string()));
    let err = r.err().expect("bind failure must abort startup");
    assert_eq!(err.error, "permission denied");
}

#[test]
fn accept_and_decode_one_connection() {
    let cfg = config();
    let state = start_unix_source(None).unwrap();
    let r = unix_step(&cfg, state, UnixEvent::Accepted(1));
    assert_eq!(r.emitted.len(), 1);
    assert_eq!(r.emitted[0].message, "Connected.");
    assert_eq!(
        r.emitted[0].counters,
        vec![CounterInc::ConnectionEstablished { mode: SocketMode::Unix }]
    );
    let r = unix_step(&cfg, r.state, UnixEvent::Data(1, b"payload".to_vec()));
    assert_eq!(r.forwarded.len(), 1);
    assert_eq!(r.forwarded[0].kind, EventKind::Log);
    assert_eq!(
        *r.forwarded[0].fields.last().unwrap(),
        ("source_type".to_string(), Value::Str("socket".to_string()))
    );
    let r = unix_step(&cfg, r.state, UnixEvent::ConnClosed(1));
    assert!(r.state.connections.is_empty());
}

#[test]
fn connection_error_ends_only_that_connection() {
    let cfg = config();
    let state = start_unix_source(None).unwrap();
    let r = unix_step(&cfg, state, UnixEvent::Accepted(1));
    let r = unix_step(&cfg, r.state, UnixEvent::Accepted(2));
    let r = unix_step(&cfg, r.state, UnixEvent::ConnFailed(1, "connection reset".to_string()));
    assert_eq!(r.emitted.len(), 1);
    assert_eq!(r.emitted[0].message, "Unix socket error.");
    assert_eq!(
        r.emitted[0].counters,
        vec![
            CounterInc::ComponentErrors {
                error_type: ErrorType::ConnectionFailed,
                stage: ErrorStage::Processing,
                error_code: None,
            },
            CounterInc::ConnectionErrors { mode: SocketMode::Unix },
        ]
    );
    assert_eq!(r.state.connections, vec![2]);
    // The sibling connection still decodes and forwards.
    let r = unix_step(&cfg, r.state, UnixEvent::Data(2, b"still here".to_vec()));
    assert_eq!(r.forwarded.len(), 1);
}

#[test]
fn accept_failure_keeps_the_accept_loop() {
    let cfg = config();
    let state = start_unix_source(None).unwrap();
    let r = unix_step(&cfg, state, UnixEvent::AcceptFailed("too many open files".to_string()));
    assert_eq!(r.emitted.len(), 1);
    assert_eq!(r.state.phase, UnixPhase::Accepting);
    let r = unix_step(&cfg, r.state, UnixEvent::Accepted(7));
    assert_eq!(r.state.connections, vec![7]);
}

#[test]
fn data_on_unknown_connection_is_ignored() {
    let cfg = config();
    let state = start_unix_source(None).unwrap();
    let r = unix_step(&cfg, state, UnixEvent::Data(9, b"stray".to_vec()));
    assert_eq!(r.forwarded.len(), 0);
    assert_eq!(r.emitted.len(), 0);
}

#[test]
fn shutdown_removes_file_then_acks() {
    let cfg = config();
    let state = start_unix_source(None).unwrap();
    let r = unix_step(&cfg, state, UnixEvent::Accepted(1));
    let r = unix_step(&cfg, r.state, UnixEvent::Shutdown);
    assert!(r.remove_file);
    assert!(!r.ack);
    assert_eq!(r.state.phase, UnixPhase::CleaningUp);
    assert!(r.state.connections.is_empty());
    let r = unix_step(&cfg, r.state, UnixEvent::FileRemoved(None));
    assert_eq!(r.emitted.len(), 0);
    assert!(r.ack);
    assert_eq!(r.state.phase, UnixPhase::Stopped);
}

#[test]
fn delete_socket_file_error_is_reported_and_shutdown_completes() {
    let cfg = config();
    let mut coordinator = ShutdownCoordinator::new();
    let id = "socket_listener".to_string();
    coordinator.register(id.clone()).unwrap();
    assert!(!coordinator.begin_shutdown(&id));

    let state = start_unix_source(None).unwrap();
    let r = unix_step(&cfg, state, UnixEvent::Shutdown);
    assert!(r.remove_file);
    let r = unix_step(
        &cfg,
        r.state,
        UnixEvent::FileRemoved(Some("No such file or directory".to_string())),
    );
    // Exactly one cleanup-error record, tagged delete_socket_file.
    assert_eq!(r.emitted.len(), 1);
    assert_eq!(r.emitted[0].message, "Failed in deleting unix socket file.");
    assert_eq!(
        r.emitted[0].counters,
        vec![CounterInc::ComponentErrors {
            error_type: ErrorType::WriterFailed,
            stage: ErrorStage::Processing,
            error_code: Some(ErrorCode::DeleteSocketFile),
        }]
    );
    // The failure never blocks shutdown: the acknowledgement still
    // goes out and the coordinator reports success.
    assert!(r.ack);
    assert_eq!(r.state.phase, UnixPhase::Stopped);
    assert!(coordinator.acknowledge(&id));
    assert!(coordinator.shutdown_complete(&id));
}

#[test]
fn emitted_records_carry_the_documented_counters() {
    let established = UnixSocketConnectionEstablished { path: "/tmp/s".to_string() }.emit();
    assert_eq!(
        established.counters,
        vec![CounterInc::ConnectionEstablished { mode: SocketMode::Unix }]
    );

    let outgoing = UnixSocketOutgoingConnectionError { error: "refused".to_string() }.emit();
    assert_eq!(outgoing.message, "Unable to connect.");
    assert_eq!(
        outgoing.counters,
        vec![
            CounterInc::ComponentErrors {
                error_type: ErrorType::ConnectionFailed,
                stage: ErrorStage::Sending,
                error_code: Some(ErrorCode::FailedConnecting),
            },
            CounterInc::ConnectionFailed { mode: SocketMode::Unix },
        ]
    );

    let socket_error =
        UnixSocketError { error: "reset".to_string(), path: "/tmp/s".to_string() }.emit();
    assert_eq!(socket_error.counters.len(), 2);

    let delete_error = UnixSocketFileDeleteError {
        path: "/tmp/s".to_string(),
        error: "denied".to_string(),
    }
    .emit();
    assert_eq!(delete_error.counters.len(), 1);
}
