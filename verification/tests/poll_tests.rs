//! Poll-mode source runtime: scheduling, attempt isolation, and the
//! shutdown handshake, driven at the model level.

use source_runtime::decode::{DecodingFormat, FramingStrategy};
use source_runtime::event::{EventKind, Value};
use source_runtime::internal_events::{
    CounterInc, ErrorStage, ErrorType, InternalEventRecord,
};
use source_runtime::poll::{
    poll_step, Auth, HttpScrapeConfig, PollEvent, PollPhase, PollState, TlsConfig,
};
use source_runtime::shutdown::ShutdownCoordinator;

fn config(endpoint: &str, decoding: DecodingFormat) -> HttpScrapeConfig {
    HttpScrapeConfig {
        endpoint: endpoint.to_string(),
        scrape_interval_secs: 1,
        query: Vec::new(),
        decoding,
        framing: FramingStrategy::WholeBody,
        headers: Vec::new(),
        method: source_runtime::poll::HttpMethod::Get,
        auth: None,
        tls: None,
        log_namespace: None,
    }
}

fn initial() -> PollState {
    PollState { phase: PollPhase::Idle, attempts_completed: 0 }
}

fn connection_error_counter() -> CounterInc {
    CounterInc::ComponentErrors {
        error_type: ErrorType::ConnectionFailed,
        stage: ErrorStage::Receiving,
        error_code: None,
    }
}

/// Drive whole failing attempts, as an unreachable endpoint produces.
fn run_failing_attempts(
    cfg: &HttpScrapeConfig,
    n: usize,
    error: &str,
) -> (PollState, Vec<InternalEventRecord>, usize) {
    let mut state = initial();
    let mut emitted: Vec<InternalEventRecord> = Vec::new();
    let mut forwarded_total: usize = 0;
    for _ in 0..n {
        let r = poll_step(cfg, state, PollEvent::Tick);
        assert!(r.start_fetch);
        state = r.state;
        let r = poll_step(cfg, state, PollEvent::FetchFailed(error.to_string()));
        state = r.state;
        emitted.extend(r.emitted);
        forwarded_total += r.forwarded.len();
    }
    (state, emitted, forwarded_total)
}

#[test]
fn invalid_endpoint() {
    let cfg = config("http://nope", DecodingFormat::Json);
    // Three seconds at one-second intervals: three failed attempts.
    let (state, emitted, forwarded) =
        run_failing_attempts(&cfg, 3, "error trying to connect: dns error");
    assert_eq!(forwarded, 0);
    assert!(emitted.len() >= 2);
    assert_eq!(emitted.len(), 3);
    for record in &emitted {
        assert_eq!(record.message, "HTTP request error.");
        assert_eq!(record.counters, vec![connection_error_counter()]);
    }
    // The failures were never fatal to the source.
    assert_eq!(state.phase, PollPhase::Idle);
    assert_eq!(state.attempts_completed, 3);
}

#[test]
fn scraped_logs_bytes() {
    let cfg = config("http://localhost:5000/logs/bytes", DecodingFormat::Bytes);
    let r = poll_step(&cfg, initial(), PollEvent::Tick);
    let r = poll_step(&cfg, r.state, PollEvent::FetchOk(b"a log line".to_vec()));
    assert_eq!(r.emitted.len(), 0);
    assert_eq!(r.forwarded.len(), 1);
    let log = &r.forwarded[0];
    assert_eq!(log.kind, EventKind::Log);
    assert_eq!(
        *log.fields.last().unwrap(),
        ("source_type".to_string(), Value::Str("http_scrape".to_string()))
    );
}

#[test]
fn scraped_logs_json() {
    let cfg = config("http://localhost:5000/logs/json.json", DecodingFormat::Json);
    let r = poll_step(&cfg, initial(), PollEvent::Tick);
    let r = poll_step(&cfg, r.state, PollEvent::FetchOk(br#"{"message":"hi"}"#.to_vec()));
    assert_eq!(r.forwarded.len(), 1);
    let log = &r.forwarded[0];
    assert_eq!(log.kind, EventKind::Log);
    assert_eq!(
        *log.fields.last().unwrap(),
        ("source_type".to_string(), Value::Str("http_scrape".to_string()))
    );
}

#[test]
fn scraped_metrics_native_json() {
    let cfg = config("http://localhost:5000/metrics/native.json", DecodingFormat::NativeJson);
    let r = poll_step(&cfg, initial(), PollEvent::Tick);
    let r = poll_step(
        &cfg,
        r.state,
        PollEvent::FetchOk(br#"{"metric":{"name":"requests","value":7}}"#.to_vec()),
    );
    assert_eq!(r.forwarded.len(), 1);
    let metric = &r.forwarded[0];
    assert_eq!(metric.kind, EventKind::Metric);
    assert_eq!(
        *metric.fields.last().unwrap(),
        ("source_type".to_string(), Value::Str("http_scrape".to_string()))
    );
}

#[test]
fn scraped_trace_native_json() {
    let cfg = config("http://localhost:5000/traces/native.json", DecodingFormat::NativeJson);
    let r = poll_step(&cfg, initial(), PollEvent::Tick);
    let r = poll_step(
        &cfg,
        r.state,
        PollEvent::FetchOk(br#"{"trace":{"span":"root"}}"#.to_vec()),
    );
    assert_eq!(r.forwarded.len(), 1);
    assert_eq!(r.forwarded[0].kind, EventKind::Trace);
}

#[test]
fn unauthorized_no_auth() {
    let mut cfg = config("http://localhost:5000/logs/json.json", DecodingFormat::Json);
    cfg.auth = None;
    let (_, emitted, forwarded) = run_failing_attempts(&cfg, 2, "401 Unauthorized");
    assert_eq!(forwarded, 0);
    // One error per attempt, no more and no fewer.
    assert_eq!(emitted.len(), 2);
}

#[test]
fn unauthorized_wrong_auth() {
    let mut cfg = config("http://localhost:5000/logs/json.json", DecodingFormat::Json);
    cfg.auth = Some(Auth::Basic {
        user: "white_rabbit".to_string(),
        password: "morpheus".to_string(),
    });
    let (_, emitted, forwarded) = run_failing_attempts(&cfg, 2, "401 Unauthorized");
    assert_eq!(forwarded, 0);
    assert_eq!(emitted.len(), 2);
}

#[test]
fn authorized() {
    let mut cfg = config("http://localhost:5000/logs/json.json", DecodingFormat::Json);
    cfg.auth = Some(Auth::Basic { user: "user".to_string(), password: "pass".to_string() });
    let r = poll_step(&cfg, initial(), PollEvent::Tick);
    let r = poll_step(&cfg, r.state, PollEvent::FetchOk(br#"{"message":"ok"}"#.to_vec()));
    assert_eq!(r.emitted.len(), 0);
    assert_eq!(r.forwarded.len(), 1);
}

#[test]
fn tls_invalid_ca() {
    let mut cfg = config("https://localhost:5000/logs/json.json", DecodingFormat::Json);
    cfg.tls = Some(TlsConfig {
        ca_file: Some("tests/data/http-scrape/certs/invalid-ca-cert.pem".to_string()),
    });
    let (_, emitted, forwarded) = run_failing_attempts(&cfg, 1, "certificate verify failed");
    assert_eq!(forwarded, 0);
    assert_eq!(emitted.len(), 1);
    assert_eq!(emitted[0].counters, vec![connection_error_counter()]);
}

#[test]
fn tls_valid() {
    let mut cfg = config("https://localhost:5000/logs/json.json", DecodingFormat::Json);
    cfg.tls = Some(TlsConfig { ca_file: Some("tests/data/ca/certs/ca.cert.pem".to_string()) });
    let r = poll_step(&cfg, initial(), PollEvent::Tick);
    let r = poll_step(&cfg, r.state, PollEvent::FetchOk(br#"{"message":"ok"}"#.to_vec()));
    assert_eq!(r.forwarded.len(), 1);
}

#[test]
fn shutdown() {
    let cfg = config("http://localhost:5000/logs/json.json", DecodingFormat::Json);
    let mut coordinator = ShutdownCoordinator::new();
    let source_id = "http_scrape_shutdown".to_string();
    coordinator.register(source_id.clone()).expect("source should not fail to build");

    // Signal, let the task observe it and acknowledge, then read the
    // outcome before the deadline.
    assert!(!coordinator.begin_shutdown(&source_id));
    let r = poll_step(&cfg, initial(), PollEvent::Shutdown);
    assert!(r.ack);
    assert_eq!(r.state.phase, PollPhase::Stopped);
    assert!(coordinator.acknowledge(&source_id));
    assert!(coordinator.shutdown_complete(&source_id));

    // After the acknowledgement nothing reaches the output channel.
    let r2 = poll_step(&cfg, r.state, PollEvent::Tick);
    assert!(!r2.start_fetch);
    assert_eq!(r2.forwarded.len(), 0);
    let r3 = poll_step(&cfg, r2.state, PollEvent::FetchOk(br#"{"late":1}"#.to_vec()));
    assert_eq!(r3.forwarded.len(), 0);
    assert!(!r3.ack);
    assert_eq!(r3.state.phase, PollPhase::Stopped);
}

#[test]
fn shutdown_lets_inflight_attempt_finish() {
    let cfg = config("http://localhost:5000/logs/json.json", DecodingFormat::Json);
    let r = poll_step(&cfg, initial(), PollEvent::Tick);
    assert_eq!(r.state.phase, PollPhase::Fetching);
    let r = poll_step(&cfg, r.state, PollEvent::Shutdown);
    assert_eq!(r.state.phase, PollPhase::Draining);
    assert!(!r.ack);
    // The in-flight attempt still completes and forwards, then the
    // acknowledgement goes out.
    let r = poll_step(&cfg, r.state, PollEvent::FetchOk(br#"{"message":"last"}"#.to_vec()));
    assert_eq!(r.forwarded.len(), 1);
    assert!(r.ack);
    assert_eq!(r.state.phase, PollPhase::Stopped);
}

#[test]
fn attempts_track_the_schedule() {
    let cfg = config("http://localhost:5000/logs/bytes", DecodingFormat::Bytes);
    // A five-second run at one-second intervals: five whole cycles.
    let mut state = initial();
    for _ in 0..5 {
        let r = poll_step(&cfg, state, PollEvent::Tick);
        state = r.state;
        let r = poll_step(&cfg, state, PollEvent::FetchOk(b"x".to_vec()));
        state = r.state;
    }
    assert_eq!(state.attempts_completed, 5);
    // A tick alone starts an attempt but completes none.
    let r = poll_step(&cfg, state, PollEvent::Tick);
    assert_eq!(r.state.attempts_completed, 5);
}
