//! The poll-driven source runtime: on a fixed interval, one
//! fetch-decode-forward cycle per tick. The task is a state machine
//! between suspension points; the driver performs the transport work
//! and hands back what it observed. Each attempt's outcome is isolated:
//! a transport failure becomes exactly one instrumentation record and
//! the loop continues at the next tick.

use vstd::prelude::*;
use crate::decode::{
    payload_errors_spec, payload_events_spec, DecodingFormat, FramingStrategy,
};
use crate::event::Event;
use crate::internal_events::{
    decode_payload_reporting, is_decode_error_record, is_endpoint_error_record,
    EndpointConnectionError, InternalEventRecord,
};

verus! {

/// HTTP method of a poll-mode request.
#[derive(Clone, Copy, PartialEq, Eq, Structural, Debug)]
pub enum HttpMethod {
    Get,
    Head,
    Post,
    Put,
    Delete,
}

/// Credentials a poll-mode source presents.
#[derive(Clone, PartialEq, Eq, Debug)]
pub enum Auth {
    Basic { user: String, password: String },
}

/// TLS options of a poll-mode source.
#[derive(Clone, PartialEq, Eq, Debug)]
pub struct TlsConfig {
    pub ca_file: Option<String>,
}

/// Configuration of one HTTP-poll source instance.
pub struct HttpScrapeConfig {
    pub endpoint: String,
    pub scrape_interval_secs: u64,
    pub query: Vec<(String, String)>,
    pub decoding: DecodingFormat,
    pub framing: FramingStrategy,
    pub headers: Vec<(String, String)>,
    pub method: HttpMethod,
    pub auth: Option<Auth>,
    pub tls: Option<TlsConfig>,
    pub log_namespace: Option<bool>,
}

/// The component type name every event of this source carries.
pub open spec fn http_scrape_name() -> Seq<char> {
    "http_scrape"@
}

/// The component type name, for stamping and for tests.
pub fn source_type_name() -> (r: &'static str)
    ensures
        r@ == http_scrape_name(),
{
    "http_scrape"
}

/// Phase of a poll-mode source task.
#[derive(Clone, Copy, PartialEq, Eq, Structural, Debug)]
pub enum PollPhase {
    /// Waiting for the next scheduled tick.
    Idle,
    /// One fetch attempt is in flight.
    Fetching,
    /// Shutdown arrived while an attempt was in flight; the attempt is
    /// allowed to finish, bounded by the transport's own timeout.
    Draining,
    /// The acknowledgement was sent and the task has exited.
    Stopped,
}

/// State of one poll-mode source task between suspension points.
#[derive(Clone, Copy, PartialEq, Eq, Structural, Debug)]
pub struct PollState {
    pub phase: PollPhase,
    pub attempts_completed: u64,
}

/// What the task observed at a suspension point: the multiplexed wait
/// over timer, transport and cancellation signal.
pub enum PollEvent {
    /// The scrape interval elapsed.
    Tick,
    /// The in-flight fetch finished with a payload.
    FetchOk(Vec<u8>),
    /// The in-flight fetch failed at the transport: unreachable
    /// endpoint, non-success response, TLS or auth failure.
    FetchFailed(String),
    /// The cancellation signal arrived.
    Shutdown,
}

/// One step's worth of task output: what to start, emit, forward and
/// acknowledge, in that order.
pub struct PollStepResult {
    pub state: PollState,
    /// Begin one fetch of the endpoint.
    pub start_fetch: bool,
    /// Instrumentation records to emit, one per error.
    pub emitted: Vec<InternalEventRecord>,
    /// Decoded events to forward to the output channel, in decode order.
    pub forwarded: Vec<Event>,
    /// Send the completion acknowledgement and exit.
    pub ack: bool,
}

/// The next phase of a poll task.
pub open spec fn poll_phase_step(phase: PollPhase, event: PollEvent) -> PollPhase {
    match phase {
        PollPhase::Idle => match event {
            PollEvent::Tick => PollPhase::Fetching,
            PollEvent::Shutdown => PollPhase::Stopped,
            _ => PollPhase::Idle,
        },
        PollPhase::Fetching => match event {
            PollEvent::FetchOk(_) => PollPhase::Idle,
            PollEvent::FetchFailed(_) => PollPhase::Idle,
            PollEvent::Shutdown => PollPhase::Draining,
            PollEvent::Tick => PollPhase::Fetching,
        },
        PollPhase::Draining => match event {
            PollEvent::FetchOk(_) => PollPhase::Stopped,
            PollEvent::FetchFailed(_) => PollPhase::Stopped,
            _ => PollPhase::Draining,
        },
        PollPhase::Stopped => PollPhase::Stopped,
    }
}

/// Whether this step completes one attempt.
pub open spec fn attempt_completes(phase: PollPhase, event: PollEvent) -> bool {
    (phase == PollPhase::Fetching || phase == PollPhase::Draining) && (event is FetchOk
        || event is FetchFailed)
}

/// The next state of a poll task: the phase advances and the attempt
/// counter grows by one on each completed attempt (saturating).
pub open spec fn poll_state_step(s: PollState, event: PollEvent) -> PollState {
    PollState {
        phase: poll_phase_step(s.phase, event),
        attempts_completed: if attempt_completes(s.phase, event) && s.attempts_completed
            < u64::MAX {
            (s.attempts_completed + 1) as u64
        } else {
            s.attempts_completed
        },
    }
}

/// Whether this step sends the completion acknowledgement: exactly the
/// transitions into `Stopped`, so it is sent at most once per lifetime.
pub open spec fn poll_acks(s: PollState, event: PollEvent) -> bool {
    ||| s.phase == PollPhase::Idle && event is Shutdown
    ||| s.phase == PollPhase::Draining && (event is FetchOk || event is FetchFailed)
}

/// One step of the poll-mode task: from the current state and what the
/// driver observed, the next state and everything the task does before
/// it suspends again. A transport failure yields exactly one
/// instrumentation record and is never fatal; on shutdown no new
/// attempt starts, an in-flight attempt finishes first, and the
/// acknowledgement is sent exactly on the transition into `Stopped`.
pub fn poll_step(cfg: &HttpScrapeConfig, state: PollState, event: PollEvent) -> (r: PollStepResult)
    ensures
        r.state == poll_state_step(state, event),
        r.start_fetch == (state.phase == PollPhase::Idle && event is Tick),
        r.ack == poll_acks(state, event),
        !attempt_completes(state.phase, event) ==> r.emitted@.len() == 0 && r.forwarded@.len() == 0,
        attempt_completes(state.phase, event) ==> match event {
            PollEvent::FetchOk(p) => {
                &&& r.forwarded.deep_view() == payload_events_spec(
                    p@,
                    cfg.framing,
                    cfg.decoding,
                    http_scrape_name(),
                )
                &&& r.emitted@.len() == payload_errors_spec(
                    p@,
                    cfg.framing,
                    cfg.decoding,
                    http_scrape_name(),
                ).len()
                &&& forall|i: int|
                    0 <= i < r.emitted@.len() ==> is_decode_error_record(
                        #[trigger] r.emitted@[i],
                        payload_errors_spec(p@, cfg.framing, cfg.decoding, http_scrape_name())[
                            i
                        ].reason,
                    )
            },
            PollEvent::FetchFailed(err) => {
                &&& r.forwarded@.len() == 0
                &&& r.emitted@.len() == 1
                &&& is_endpoint_error_record(r.emitted@[0], cfg.endpoint@, err@)
            },
            _ => false,
        },
{
    let attempts_next: u64 = if state.attempts_completed < u64::MAX {
        state.attempts_completed + 1
    } else {
        state.attempts_completed
    };
    match state.phase {
        PollPhase::Idle => match event {
            PollEvent::Tick => PollStepResult {
                state: PollState { phase: PollPhase::Fetching, ..state },
                start_fetch: true,
                emitted: Vec::new(),
                forwarded: Vec::new(),
                ack: false,
            },
            PollEvent::Shutdown => PollStepResult {
                state: PollState { phase: PollPhase::Stopped, ..state },
                start_fetch: false,
                emitted: Vec::new(),
                forwarded: Vec::new(),
                ack: true,
            },
            _ => PollStepResult {
                state,
                start_fetch: false,
                emitted: Vec::new(),
                forwarded: Vec::new(),
                ack: false,
            },
        },
        PollPhase::Fetching | PollPhase::Draining => {
            let was_draining = matches!(state.phase, PollPhase::Draining);
            match event {
                PollEvent::FetchOk(p) => {
                    let (emitted, forwarded) = decode_payload_reporting(
                        &p,
                        cfg.framing,
                        cfg.decoding,
                        source_type_name(),
                    );
                    PollStepResult {
                        state: PollState {
                            phase: if was_draining {
                                PollPhase::Stopped
                            } else {
                                PollPhase::Idle
                            },
                            attempts_completed: attempts_next,
                        },
                        start_fetch: false,
                        emitted,
                        forwarded,
                        ack: was_draining,
                    }
                },
                PollEvent::FetchFailed(err) => {
                    let endpoint = cfg.endpoint.clone();
                    let record = EndpointConnectionError { endpoint, error: err }.emit();
                    let mut emitted: Vec<InternalEventRecord> = Vec::new();
                    emitted.push(record);
                    PollStepResult {
                        state: PollState {
                            phase: if was_draining {
                                PollPhase::Stopped
                            } else {
                                PollPhase::Idle
                            },
                            attempts_completed: attempts_next,
                        },
                        start_fetch: false,
                        emitted,
                        forwarded: Vec::new(),
                        ack: was_draining,
                    }
                },
                PollEvent::Shutdown => PollStepResult {
                    state: PollState { phase: PollPhase::Draining, ..state },
                    start_fetch: false,
                    emitted: Vec::new(),
                    forwarded: Vec::new(),
                    ack: false,
                },
                PollEvent::Tick => PollStepResult {
                    state,
                    start_fetch: false,
                    emitted: Vec::new(),
                    forwarded: Vec::new(),
                    ack: false,
                },
            }
        },
        PollPhase::Stopped => PollStepResult {
            state,
            start_fetch: false,
            emitted: Vec::new(),
            forwarded: Vec::new(),
            ack: false,
        },
    }
}

// ------------------------------------------------------------------
// Laws of a poll-mode run
// ------------------------------------------------------------------

/// The state after a whole run of observed events.
pub open spec fn poll_run_state(s: PollState, events: Seq<PollEvent>) -> PollState
    decreases events.len(),
{
    if events.len() == 0 {
        s
    } else {
        poll_run_state(poll_state_step(s, events.first()), events.drop_first())
    }
}

/// Running one more event steps the final state once.
pub proof fn lemma_poll_run_snoc(s: PollState, events: Seq<PollEvent>, e: PollEvent)
    ensures
        poll_run_state(s, events.push(e)) == poll_state_step(poll_run_state(s, events), e),
    decreases events.len(),
{
    if events.len() == 0 {
        assert(events.push(e).first() == e);
        assert(events.push(e).drop_first() =~= Seq::<PollEvent>::empty());
        assert(poll_run_state(s, events.push(e)) == poll_run_state(
            poll_state_step(s, e),
            events.push(e).drop_first(),
        ));
        assert(poll_run_state(poll_state_step(s, e), events.push(e).drop_first())
            == poll_state_step(s, e));
        assert(poll_run_state(s, events) == s);
    } else {
        assert(events.push(e).first() == events.first());
        assert(events.push(e).drop_first() =~= events.drop_first().push(e));
        lemma_poll_run_snoc(poll_state_step(s, events.first()), events.drop_first(), e);
        assert(poll_run_state(s, events.push(e)) == poll_run_state(
            poll_state_step(s, events.first()),
            events.push(e).drop_first(),
        ));
        assert(poll_run_state(s, events) == poll_run_state(
            poll_state_step(s, events.first()),
            events.drop_first(),
        ));
    }
}

/// Law: a stopped task is stopped for good — whatever is observed
/// afterwards, the phase stays `Stopped`, no attempt completes, and no
/// further acknowledgement is sent.
pub proof fn lemma_stopped_absorbing(s: PollState, events: Seq<PollEvent>)
    requires
        s.phase == PollPhase::Stopped,
    ensures
        poll_run_state(s, events) == s,
    decreases events.len(),
{
    if events.len() > 0 {
        assert(poll_state_step(s, events.first()) == s);
        lemma_stopped_absorbing(s, events.drop_first());
    }
}

/// Law: after the step at position `i` sends the completion
/// acknowledgement, the task stands in `Stopped` before every later
/// step, so no later step forwards events, completes an attempt, or
/// acknowledges again.
pub proof fn lemma_quiet_after_ack(s: PollState, events: Seq<PollEvent>, i: int, j: int)
    requires
        0 <= i < j < events.len(),
        poll_acks(poll_run_state(s, events.subrange(0, i)), events[i]),
    ensures
        poll_run_state(s, events.subrange(0, j)).phase == PollPhase::Stopped,
        !attempt_completes(poll_run_state(s, events.subrange(0, j)).phase, events[j]),
        !poll_acks(poll_run_state(s, events.subrange(0, j)), events[j]),
{
    let before_i = poll_run_state(s, events.subrange(0, i));
    let after_i = poll_state_step(before_i, events[i]);
    assert(events.subrange(0, i + 1) =~= events.subrange(0, i).push(events[i]));
    lemma_poll_run_snoc(s, events.subrange(0, i), events[i]);
    assert(after_i.phase == PollPhase::Stopped);
    assert(events.subrange(0, j) =~= events.subrange(0, i + 1) + events.subrange(i + 1, j));
    lemma_poll_run_concat(s, events.subrange(0, i + 1), events.subrange(i + 1, j));
    lemma_stopped_absorbing(after_i, events.subrange(i + 1, j));
    assert(poll_run_state(s, events.subrange(0, i + 1)) == after_i);
}

/// Running a concatenation runs the two halves in order.
pub proof fn lemma_poll_run_concat(s: PollState, first: Seq<PollEvent>, second: Seq<PollEvent>)
    ensures
        poll_run_state(s, first + second) == poll_run_state(poll_run_state(s, first), second),
    decreases second.len(),
{
    if second.len() == 0 {
        assert(first + second =~= first);
        assert(poll_run_state(poll_run_state(s, first), second) == poll_run_state(s, first));
    } else {
        assert((first + second.drop_last()).push(second.last()) =~= first + second);
        lemma_poll_run_concat(s, first, second.drop_last());
        lemma_poll_run_snoc(s, first + second.drop_last(), second.last());
        lemma_poll_run_snoc(poll_run_state(s, first), second.drop_last(), second.last());
        assert(second.drop_last().push(second.last()) =~= second);
        assert(poll_run_state(s, first + second) == poll_run_state(
            s,
            (first + second.drop_last()).push(second.last()),
        ));
        assert(poll_run_state(poll_run_state(s, first), second) == poll_run_state(
            poll_run_state(s, first),
            second.drop_last().push(second.last()),
        ));
    }
}

/// One scheduled cycle: a tick, then the completed attempt it started.
pub open spec fn is_cycle(events: Seq<PollEvent>) -> bool {
    &&& events.len() == 2
    &&& events[0] is Tick
    &&& (events[1] is FetchOk || events[1] is FetchFailed)
}

/// A run of `n` whole scheduled cycles, back to back.
pub open spec fn is_cycles(events: Seq<PollEvent>, n: nat) -> bool
    decreases n,
{
    if n == 0 {
        events.len() == 0
    } else {
        &&& events.len() >= 2
        &&& is_cycle(events.subrange(0, 2))
        &&& is_cycles(events.skip(2), (n - 1) as nat)
    }
}

/// Law: over any run of whole scheduled cycles, the task completes
/// exactly one attempt per cycle. For a run of duration `d` at interval
/// `t` the driver delivers `d / t` ticks, so the completed attempts
/// equal `d / t` — in particular within one of it.
pub proof fn lemma_attempts_track_cycles(s: PollState, events: Seq<PollEvent>, n: nat)
    requires
        s.phase == PollPhase::Idle,
        is_cycles(events, n),
        s.attempts_completed + n <= u64::MAX,
    ensures
        poll_run_state(s, events).phase == PollPhase::Idle,
        poll_run_state(s, events).attempts_completed == s.attempts_completed + n,
    decreases n,
{
    if n == 0 {
    } else {
        let tick = events[0];
        let done = events[1];
        assert(is_cycle(events.subrange(0, 2)));
        assert(events.subrange(0, 2)[0] == tick);
        assert(events.subrange(0, 2)[1] == done);
        let s1 = poll_state_step(s, tick);
        assert(s1.phase == PollPhase::Fetching);
        let s2 = poll_state_step(s1, done);
        assert(s2.phase == PollPhase::Idle);
        assert(s2.attempts_completed == s.attempts_completed + 1);
        assert(events.first() == tick);
        assert(poll_run_state(s, events) == poll_run_state(s1, events.drop_first()));
        assert(events.drop_first().first() == done);
        assert(poll_run_state(s1, events.drop_first()) == poll_run_state(
            s2,
            events.drop_first().drop_first(),
        ));
        assert(events.drop_first().drop_first() =~= events.skip(2));
        lemma_attempts_track_cycles(s2, events.skip(2), (n - 1) as nat);
    }
}

/// Law: for a run duration `d` with interval `t` against an endpoint
/// that answers every attempt, the number of completed attempts is
/// `d / t` — within one of it.
pub proof fn lemma_schedule_attempt_count(d: nat, t: nat, events: Seq<PollEvent>)
    requires
        t > 0,
        is_cycles(events, d / t),
        d / t <= u64::MAX,
    ensures
        poll_run_state(
            PollState { phase: PollPhase::Idle, attempts_completed: 0 },
            events,
        ).attempts_completed == d / t,
        poll_run_state(
            PollState { phase: PollPhase::Idle, attempts_completed: 0 },
            events,
        ).attempts_completed + 1 >= d / t,
{
    lemma_attempts_track_cycles(
        PollState { phase: PollPhase::Idle, attempts_completed: 0 },
        events,
        d / t,
    );
}

} // verus!
