//! Long-task polling: the decisions of the polling loop as a state machine.
//!
//! The caller fetches, turns the outcome into a [`PollEvent`], asks
//! [`PollState::step`] what to do, and performs the [`PollAction`] (return the
//! data, return an error, or sleep and fetch again).

use vstd::prelude::*;
use vstd::string::StringExecFns;

use crate::text::{int_text, push_u64_text};
use crate::transport::{ErrorCause, TransportError};

verus! {

broadcast use vstd::string::to_string_from_display_ensures_for_str;

/// Network errors tolerated in a row before polling gives up.
pub const MAX_CONSECUTIVE_NETWORK_ERRORS: u32 = 3;
/// Lower bound of the wait between two polls, and the base of the back-off.
pub const DEFAULT_MIN_POLL_INTERVAL_MS: u64 = 1000;
/// Task timeout used when the first pending response names none.
pub const DEFAULT_POLL_TIMEOUT_SECS: u64 = 600;

/// Long-task polling wire mode (`0` = task query, `1` = reuse the endpoint).
#[derive(Debug, Clone, Copy, PartialEq, Eq, Structural)]
pub enum PollMode {
    /// POST /task/query with {method, payload}.
    TaskQuery,
    /// Reuse the original endpoint, carrying the task id in a header.
    ReuseEndpoint,
}

pub open spec fn poll_mode_wire(m: PollMode) -> u8 {
    match m {
        PollMode::TaskQuery => 0,
        PollMode::ReuseEndpoint => 1,
    }
}

impl PollMode {
    /// The wire value.
    pub fn wire(self) -> (r: u8)
        ensures
            r == poll_mode_wire(self),
    {
        match self {
            PollMode::TaskQuery => 0,
            PollMode::ReuseEndpoint => 1,
        }
    }

    /// The mode of a wire value (`None` for unknown values).
    pub fn from_wire(v: u8) -> (r: Option<PollMode>)
        ensures
            r matches Some(m) ==> poll_mode_wire(m) == v,
            r is None <==> v > 1,
    {
        if v == 0 {
            Some(PollMode::TaskQuery)
        } else if v == 1 {
            Some(PollMode::ReuseEndpoint)
        } else {
            None
        }
    }
}

impl Default for PollMode {
    fn default() -> (r: PollMode)
        ensures
            r == PollMode::TaskQuery,
    {
        PollMode::TaskQuery
    }
}

/// Law: the wire value of every mode reads back as that mode.
pub proof fn law_poll_mode_wire_roundtrip(m: PollMode)
    ensures
        poll_mode_wire(m) <= 1,
        forall|n: PollMode| poll_mode_wire(n) == poll_mode_wire(m) ==> n == m,
{
}

/// Polling status carried by a poll response.
#[derive(Debug, Clone, Copy, PartialEq, Eq)]
pub struct LongTaskPollInfo {
    pub done: Option<bool>,
    pub task_timeout: Option<u64>,
    pub polling_interval_ms: Option<u64>,
}

/// Data that carries long-task polling status.
pub trait LongTaskPollData {
    fn poll_info(&self) -> Option<LongTaskPollInfo>;
}

/// What one fetch produced.
#[derive(Debug, Clone, Copy)]
pub enum PollEvent {
    /// A response, with its polling status (`None`: the status is missing).
    Fetched(Option<LongTaskPollInfo>),
    /// A network error.
    NetworkError,
    /// Any other error.
    OtherError,
}

/// What the polling loop does next.
#[derive(Debug, Clone, Copy, PartialEq, Eq)]
pub enum PollAction {
    /// Return the fetched data.
    Finish,
    /// Return the fetch error as it is.
    Propagate,
    /// Return a protocol error: the response has no polling status.
    MissingInfo,
    /// Return a timeout error for the given number of seconds.
    TimedOut(u64),
    /// Sleep this many milliseconds, then fetch again.
    Sleep(u64),
}

/// State kept between polls.
#[derive(Debug, Clone, Copy, PartialEq, Eq)]
pub struct PollState {
    /// Task timeout, fixed by the first pending response.
    pub timeout_secs: Option<u64>,
    /// Network errors seen in a row.
    pub network_errors: u32,
}

pub open spec fn pow2(n: nat) -> nat
    decreases n,
{
    if n == 0 {
        1
    } else {
        2 * pow2((n - 1) as nat)
    }
}

/// Back-off after the `n`-th network error in a row.
pub open spec fn backoff_ms(n: nat) -> int {
    DEFAULT_MIN_POLL_INTERVAL_MS as int * pow2(n)
}

/// The wait asked for by a response, never below the minimum.
pub open spec fn poll_interval_ms(asked: Option<u64>) -> u64 {
    let a = match asked {
        Some(v) => v,
        None => DEFAULT_MIN_POLL_INTERVAL_MS,
    };
    if a < DEFAULT_MIN_POLL_INTERVAL_MS {
        DEFAULT_MIN_POLL_INTERVAL_MS
    } else {
        a
    }
}

/// The timeout in force: the one already fixed, else the response's, else the default.
pub open spec fn effective_timeout(fixed: Option<u64>, asked: Option<u64>) -> u64 {
    match fixed {
        Some(t) => t,
        None => match asked {
            Some(t) => t,
            None => DEFAULT_POLL_TIMEOUT_SECS,
        },
    }
}

/// One transition of the polling loop.
pub open spec fn poll_next(s: PollState, event: PollEvent, elapsed_ms: u64) -> (PollState, PollAction) {
    match event {
        PollEvent::OtherError => (s, PollAction::Propagate),
        PollEvent::NetworkError => {
            let n = s.network_errors + 1;
            let next = PollState { timeout_secs: s.timeout_secs, network_errors: n as u32 };
            if n > MAX_CONSECUTIVE_NETWORK_ERRORS {
                (next, PollAction::Propagate)
            } else {
                (next, PollAction::Sleep(backoff_ms(n as nat) as u64))
            }
        },
        PollEvent::Fetched(None) => (
            PollState { timeout_secs: s.timeout_secs, network_errors: 0 },
            PollAction::MissingInfo,
        ),
        PollEvent::Fetched(Some(info)) => {
            if info.done == Some(true) {
                (PollState { timeout_secs: s.timeout_secs, network_errors: 0 }, PollAction::Finish)
            } else {
                let t = effective_timeout(s.timeout_secs, info.task_timeout);
                let next = PollState { timeout_secs: Some(t), network_errors: 0 };
                if elapsed_ms >= t * 1000 {
                    (next, PollAction::TimedOut(t))
                } else {
                    (next, PollAction::Sleep(poll_interval_ms(info.polling_interval_ms)))
                }
            }
        },
    }
}

impl PollState {
    /// Well-formed: never more network errors in a row than are tolerated.
    pub open spec fn wf(self) -> bool {
        self.network_errors <= MAX_CONSECUTIVE_NETWORK_ERRORS
    }

    /// The state before the first poll.
    pub fn new() -> (s: PollState)
        ensures
            s.timeout_secs is None,
            s.network_errors == 0,
            s.wf(),
    {
        PollState { timeout_secs: None, network_errors: 0 }
    }

    /// Decides what follows one fetch, `elapsed_ms` after polling started.
    pub fn step(&self, event: &PollEvent, elapsed_ms: u64) -> (r: (PollState, PollAction))
        requires
            self.wf(),
        ensures
            r == poll_next(*self, *event, elapsed_ms),
            r.1 is Sleep ==> r.0.wf(),
            r.1 is Finish <==> (*event matches PollEvent::Fetched(Some(info)) && info.done == Some(true)),
            (*event matches PollEvent::Fetched(Some(info)) && info.done != Some(true)) ==> (r.0.timeout_secs
                is Some && (r.1 is Sleep || r.1 is TimedOut)),
    {
        match event {
            PollEvent::OtherError => (*self, PollAction::Propagate),
            PollEvent::NetworkError => {
                let n = self.network_errors + 1;
                let next = PollState { timeout_secs: self.timeout_secs, network_errors: n };
                if n > MAX_CONSECUTIVE_NETWORK_ERRORS {
                    (next, PollAction::Propagate)
                } else {
                    let ms = backoff(n);
                    (next, PollAction::Sleep(ms))
                }
            },
            PollEvent::Fetched(None) => (
                PollState { timeout_secs: self.timeout_secs, network_errors: 0 },
                PollAction::MissingInfo,
            ),
            PollEvent::Fetched(Some(info)) => {
                if info.done == Some(true) {
                    (PollState { timeout_secs: self.timeout_secs, network_errors: 0 }, PollAction::Finish)
                } else {
                    let t = match self.timeout_secs {
                        Some(t) => t,
                        None => match info.task_timeout {
                            Some(t) => t,
                            None => DEFAULT_POLL_TIMEOUT_SECS,
                        },
                    };
                    let next = PollState { timeout_secs: Some(t), network_errors: 0 };
                    if (elapsed_ms as u128) >= (t as u128) * 1000 {
                        (next, PollAction::TimedOut(t))
                    } else {
                        let asked = match info.polling_interval_ms {
                            Some(v) => v,
                            None => DEFAULT_MIN_POLL_INTERVAL_MS,
                        };
                        let ms = if asked < DEFAULT_MIN_POLL_INTERVAL_MS {
                            DEFAULT_MIN_POLL_INTERVAL_MS
                        } else {
                            asked
                        };
                        (next, PollAction::Sleep(ms))
                    }
                }
            },
        }
    }
}

/// Back-off after the `n`-th network error in a row (`1 <= n <= 3`).
fn backoff(n: u32) -> (ms: u64)
    requires
        1 <= n <= MAX_CONSECUTIVE_NETWORK_ERRORS,
    ensures
        ms == backoff_ms(n as nat),
{
    reveal_with_fuel(pow2, 4);
    if n == 1 {
        2 * DEFAULT_MIN_POLL_INTERVAL_MS
    } else if n == 2 {
        4 * DEFAULT_MIN_POLL_INTERVAL_MS
    } else {
        8 * DEFAULT_MIN_POLL_INTERVAL_MS
    }
}

/// The error for a poll response without polling status; `body` is the
/// response as JSON text.
pub fn missing_poll_info_error(body: String) -> (e: TransportError)
    ensures
        e == (TransportError::Parse {
            message: e->Parse_message,
            endpoint: e->Parse_endpoint,
            body,
        }),
        e->Parse_message@ == "Missing 'long_task_poll' field"@,
        e->Parse_endpoint@ == "PollClawLongTask"@,
{
    TransportError::Parse {
        message: "Missing 'long_task_poll' field".to_string(),
        endpoint: "PollClawLongTask".to_string(),
        body,
    }
}

/// The text of a polling timeout after `secs` seconds.
pub open spec fn poll_timeout_text(secs: u64) -> Seq<char> {
    "轮询任务超时: "@ + int_text(secs as int) + "s"@
}

/// The error for a polling timeout after `secs` seconds.
pub fn poll_timeout_error(secs: u64) -> (e: TransportError)
    ensures
        e matches TransportError::Other(ErrorCause::Message(m)) && m@ == poll_timeout_text(secs),
{
    let mut m = "轮询任务超时: ".to_string();
    push_u64_text(&mut m, secs);
    m.append("s");
    TransportError::Other(ErrorCause::Message(m))
}

/// The state after `k` network errors in a row from `s`, and the last action.
pub open spec fn after_network_errors(s: PollState, k: nat) -> (PollState, PollAction)
    decreases k,
{
    if k == 0 {
        (s, PollAction::Sleep(0))
    } else {
        poll_next(after_network_errors(s, (k - 1) as nat).0, PollEvent::NetworkError, 0)
    }
}

/// Law: after any response the network-error budget starts afresh; from a
/// fresh budget the first three network errors in a row each back off
/// (doubling from twice the minimum interval) and the fourth is returned.
pub proof fn law_network_error_budget(s: PollState, info: Option<LongTaskPollInfo>, elapsed_ms: u64, k: nat)
    requires
        s.wf(),
        1 <= k <= MAX_CONSECUTIVE_NETWORK_ERRORS + 1,
    ensures
        poll_next(s, PollEvent::Fetched(info), elapsed_ms).0.network_errors == 0,
        ({
            let fresh = PollState { timeout_secs: s.timeout_secs, network_errors: 0 };
            let r = after_network_errors(fresh, k);
            &&& r.0.network_errors == k
            &&& (k <= MAX_CONSECUTIVE_NETWORK_ERRORS ==> r.1 == PollAction::Sleep(backoff_ms(k) as u64))
            &&& (k == MAX_CONSECUTIVE_NETWORK_ERRORS + 1 ==> r.1 == PollAction::Propagate)
        }),
    decreases k,
{
    let fresh = PollState { timeout_secs: s.timeout_secs, network_errors: 0 };
    if k > 1 {
        law_network_error_budget(s, info, elapsed_ms, (k - 1) as nat);
    }
    assert(after_network_errors(fresh, (k - 1) as nat).0.network_errors == k - 1);
}

/// Law: once fixed, the timeout never changes; a fetched response is
/// returned as the result exactly when its status says the task is done
/// (whatever the time), and one that does not say so fixes a timeout and
/// leads to a wait or a timeout; non-network errors are returned at once; every wait is
/// at least the minimum interval.
pub proof fn law_poll_invariants(s: PollState, event: PollEvent, elapsed_ms: u64)
    requires
        s.wf(),
    ensures
        s.timeout_secs is Some ==> poll_next(s, event, elapsed_ms).0.timeout_secs == s.timeout_secs,
        (event matches PollEvent::Fetched(Some(info)) && info.done == Some(true))
            ==> poll_next(s, event, elapsed_ms).1 == PollAction::Finish,
        poll_next(s, event, elapsed_ms).1 == PollAction::Finish
            ==> (event matches PollEvent::Fetched(Some(info)) && info.done == Some(true)),
        (event matches PollEvent::Fetched(Some(info)) && info.done != Some(true)) ==> ({
            let r = poll_next(s, event, elapsed_ms);
            &&& r.0.timeout_secs is Some
            &&& (r.1 is Sleep || r.1 is TimedOut)
        }),
        event is OtherError ==> poll_next(s, event, elapsed_ms).1 == PollAction::Propagate,
        poll_next(s, event, elapsed_ms).1 matches PollAction::Sleep(ms)
            ==> ms >= DEFAULT_MIN_POLL_INTERVAL_MS,
{
    reveal_with_fuel(pow2, 4);
}

} // verus!
