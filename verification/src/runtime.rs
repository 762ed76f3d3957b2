//! Policies of the two execution contexts: the fallback poller and the
//! main-loop step on the consumer side, and the reconnect policy of the
//! streaming client on the producer side.

use vstd::prelude::*;
use crate::model::{AppEvent, ConnectionState, EventModel, Key};
use crate::state::{AppState, StateModel, dispatch_key, replay};

verus! {

/// Milliseconds the fallback poller waits between refetch attempts.
pub const FALLBACK_INTERVAL_MS: u64 = 30_000;

/// Seconds the streaming client backs off after a stream-level error.
pub const BACKOFF_ERROR_SECS: u64 = 5;

/// Seconds the streaming client backs off after a graceful close.
pub const BACKOFF_CLOSE_SECS: u64 = 2;

/// Bounds the staleness of displayed data when the push channel is
/// degraded: tracks the time of the last fallback attempt and fires a
/// full refetch when the stream has been down for a whole interval.
pub struct FallbackPoller {
    pub last_attempt_ms: u64,
}

/// Elapsed time on a clock that may only move forward; an earlier `now`
/// reads as zero elapsed.
pub open spec fn elapsed_ms(last: u64, now: u64) -> int {
    if now >= last {
        now - last
    } else {
        0
    }
}

impl FallbackPoller {
    /// The poller fires exactly when the stream is degraded and a whole
    /// interval has passed since the last attempt.
    pub open spec fn due_spec(self, now_ms: u64, conn: ConnectionState) -> bool {
        conn == ConnectionState::Disconnected && elapsed_ms(self.last_attempt_ms, now_ms)
            >= FALLBACK_INTERVAL_MS
    }

    /// A fresh poller, as of the given clock reading.
    pub fn new(now_ms: u64) -> (r: FallbackPoller)
        ensures
            r.last_attempt_ms == now_ms,
    {
        FallbackPoller { last_attempt_ms: now_ms }
    }

    /// Whether a fallback refetch is owed on this iteration.
    pub fn due(&self, now_ms: u64, conn: ConnectionState) -> (r: bool)
        ensures
            r == self.due_spec(now_ms, conn),
    {
        let elapsed = if now_ms >= self.last_attempt_ms {
            now_ms - self.last_attempt_ms
        } else {
            0
        };
        match conn {
            ConnectionState::Disconnected => elapsed >= FALLBACK_INTERVAL_MS,
            _ => false,
        }
    }

    /// Reset the timer; called on every attempt, whether the refetch
    /// succeeded or failed.
    pub fn record_attempt(&mut self, now_ms: u64)
        ensures
            final(self).last_attempt_ms == now_ms,
    {
        self.last_attempt_ms = now_ms;
    }
}

/// The poller never fires more than once per interval: once an attempt
/// is recorded at `t`, no further attempt is due before `t` plus the
/// interval, whatever the connection state does.
pub proof fn lemma_fallback_no_double_fire(
    p: FallbackPoller,
    t: u64,
    now: u64,
    conn: ConnectionState,
)
    requires
        p.last_attempt_ms == t,
        elapsed_ms(t, now) < FALLBACK_INTERVAL_MS,
    ensures
        !p.due_spec(now, conn),
{
}

/// The poller fires at least once per interval while the stream stays
/// degraded: whenever a whole interval has elapsed since the last
/// attempt, a refetch is due.
pub proof fn lemma_fallback_fires_when_stale(p: FallbackPoller, now: u64)
    requires
        elapsed_ms(p.last_attempt_ms, now) >= FALLBACK_INTERVAL_MS,
    ensures
        p.due_spec(now, ConnectionState::Disconnected),
{
}

/// How one run of the streaming connection ended.
#[derive(Debug)]
pub enum StreamEnd {
    /// The stream dropped with an error (transport or decode failure).
    Failed(String),
    /// The server closed the stream cleanly.
    Closed,
}

/// The retry policy of the streaming client, which never stops retrying:
/// the event to put on the channel and the backoff in seconds before the
/// connection is reopened.
pub fn reconnect_policy(end: StreamEnd) -> (r: (AppEvent, u64))
    ensures
        match end {
            StreamEnd::Failed(msg) => r.0@ == EventModel::SseError(msg@) && r.1
                == BACKOFF_ERROR_SECS,
            StreamEnd::Closed => r.0@ == EventModel::SseDisconnected && r.1 == BACKOFF_CLOSE_SECS,
        },
{
    match end {
        StreamEnd::Failed(msg) => (AppEvent::SseError(msg), BACKOFF_ERROR_SECS),
        StreamEnd::Closed => (AppEvent::SseDisconnected, BACKOFF_CLOSE_SECS),
    }
}

/// What one Running iteration of the main loop decides.
#[derive(Clone, Copy, PartialEq, Eq, Structural, Debug)]
pub struct LoopDirective {
    /// A key asked for a manual synchronous refetch.
    pub refresh: bool,
    /// The termination flag is set: leave the loop.
    pub terminate: bool,
}

/// One Running iteration of the main loop, between rendering and the
/// fallback-poller check: drain the channel completely, folding every
/// event in arrival order, then dispatch the polled key, then read the
/// termination flag.  The loop has two states, Running and Terminating;
/// `terminate` reports its only transition, taken exactly when the
/// termination flag is set.
pub fn main_loop_step(state: &mut AppState, events: Vec<AppEvent>, key: Option<Key>) -> (r:
    LoopDirective)
    requires
        old(state).wf(),
    ensures
        final(state).wf(),
        ({
            let drained = replay(old(state)@, events.deep_view());
            let after_key = match key {
                Some(k) => dispatch_key(drained, k).0,
                None => drained,
            };
            &&& final(state)@ == after_key
            &&& r.refresh == match key {
                Some(k) => dispatch_key(drained, k).1,
                None => false,
            }
            &&& r.terminate == after_key.should_quit
        }),
{
    state.apply_events(events);
    let refresh = match key {
        Some(k) => state.handle_key(k),
        None => false,
    };
    LoopDirective { refresh, terminate: state.should_quit }
}

} // verus!
