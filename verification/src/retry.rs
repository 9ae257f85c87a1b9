//! The mathematical model of one retried command exchange.
//!
//! [`run_trace`] says exactly what the retry loop does for a given script
//! suffix and attempt budget: which terminal outcome it reaches, how many
//! attempts it makes, how many scripted outcomes it consumes, and which
//! events it appends to the transport log.  The executable loop in
//! [`crate::ecc`] is verified against this function, and the retry laws are
//! proved of it here.

use vstd::prelude::*;

use crate::command::{CommandV, EccError, ResponseV};
use crate::error::Error;
use crate::transport::{EventV, OutcomeV, Transport, COMMAND_FLAG};

verus! {

/// The terminal outcome of one retried exchange.
pub enum RunOutcome {
    /// A data response: the payload.
    Data(Seq<u8>),
    /// A fatal device error, or a recoverable one on the final attempt.
    Device(EccError),
    /// A response that does not decode; never retried.
    Malformed,
    /// Every attempt failed at the transport level.
    Timeout,
}

/// Everything one retried exchange does: its outcome, the attempts made,
/// the scripted outcomes consumed, and the events logged.
pub struct RunTrace {
    pub outcome: RunOutcome,
    pub attempts: nat,
    pub consumed: nat,
    pub events: Seq<EventV>,
}

/// What the retry loop does on script suffix `s` with `budget` attempts
/// left, sending `cmd` and putting the device to sleep after each decoded
/// response when `sleep` is set.
///
/// Each attempt wakes the device and sends one frame.  A transport-level
/// failure silently consumes an attempt.  A malformed response surfaces at
/// once.  A data response ends the run and is the only outcome followed by
/// the optional sleep; a recoverable error retries while attempts remain,
/// and any other error surfaces as a device error, in both cases without
/// sleeping.
pub open spec fn run_trace(s: Seq<OutcomeV>, budget: nat, cmd: CommandV, sleep: bool) -> RunTrace
    decreases budget,
{
    if budget == 0 {
        RunTrace { outcome: RunOutcome::Timeout, attempts: 0, consumed: 0, events: Seq::empty() }
    } else {
        let sent = seq![EventV::Wake, EventV::Exchange(COMMAND_FLAG, cmd)];
        if s.len() == 0 {
            let rest = run_trace(s, (budget - 1) as nat, cmd, sleep);
            RunTrace {
                outcome: rest.outcome,
                attempts: rest.attempts + 1,
                consumed: rest.consumed,
                events: sent + rest.events,
            }
        } else {
            match s[0] {
                OutcomeV::TransportFail => {
                    let rest = run_trace(s.skip(1), (budget - 1) as nat, cmd, sleep);
                    RunTrace {
                        outcome: rest.outcome,
                        attempts: rest.attempts + 1,
                        consumed: rest.consumed + 1,
                        events: sent + rest.events,
                    }
                },
                OutcomeV::Malformed => RunTrace {
                    outcome: RunOutcome::Malformed,
                    attempts: 1,
                    consumed: 1,
                    events: sent,
                },
                OutcomeV::Respond(resp) => match resp {
                    ResponseV::Data(d) => {
                        let logged = if sleep {
                            sent.push(EventV::Sleep)
                        } else {
                            sent
                        };
                        RunTrace {
                            outcome: RunOutcome::Data(d),
                            attempts: 1,
                            consumed: 1,
                            events: logged,
                        }
                    },
                    ResponseV::Error(e) => {
                        if e.spec_recoverable() && budget > 1 {
                            let rest = run_trace(s.skip(1), (budget - 1) as nat, cmd, sleep);
                            RunTrace {
                                outcome: rest.outcome,
                                attempts: rest.attempts + 1,
                                consumed: rest.consumed + 1,
                                events: sent + rest.events,
                            }
                        } else {
                            RunTrace {
                                outcome: RunOutcome::Device(e),
                                attempts: 1,
                                consumed: 1,
                                events: sent,
                            }
                        }
                    },
                },
            }
        }
    }
}

/// The transport after one retried exchange: the script untouched, the
/// consumed outcomes gone, the trace's events appended.
pub open spec fn trace_applied(pre: Transport, post: Transport, t: RunTrace) -> bool {
    &&& post.script == pre.script
    &&& post.pos == pre.pos + t.consumed
    &&& post.events_v() == pre.events_v() + t.events
}

/// How a trace's terminal outcome shows up as an operation result.
pub open spec fn trace_result(t: RunTrace, r: Result<Vec<u8>, Error>) -> bool {
    match t.outcome {
        RunOutcome::Data(d) => r matches Ok(v) && v@ == d,
        RunOutcome::Device(e) => r == Err::<Vec<u8>, Error>(Error::Ecc(e)),
        RunOutcome::Malformed => r == Err::<Vec<u8>, Error>(Error::Decode),
        RunOutcome::Timeout => r == Err::<Vec<u8>, Error>(Error::Timeout),
    }
}

/// How a trace that did not end in data shows up as an operation result,
/// whatever the operation returns on success.
pub open spec fn trace_error<T>(t: RunTrace, r: Result<T, Error>) -> bool
    recommends
        !(t.outcome is Data),
{
    match t.outcome {
        RunOutcome::Data(d) => false,
        RunOutcome::Device(e) => r == Err::<T, Error>(Error::Ecc(e)),
        RunOutcome::Malformed => r == Err::<T, Error>(Error::Decode),
        RunOutcome::Timeout => r == Err::<T, Error>(Error::Timeout),
    }
}

/// How a trace's terminal outcome shows up as the result of an operation
/// whose data payload is discarded.
pub open spec fn trace_result_unit(t: RunTrace, r: Result<(), Error>) -> bool {
    match t.outcome {
        RunOutcome::Data(d) => r == Ok::<(), Error>(()),
        RunOutcome::Device(e) => r == Err::<(), Error>(Error::Ecc(e)),
        RunOutcome::Malformed => r == Err::<(), Error>(Error::Decode),
        RunOutcome::Timeout => r == Err::<(), Error>(Error::Timeout),
    }
}

/// If the transport fails on every attempt up to the retry budget, the run
/// times out after exactly `budget` attempts, and no data and no device
/// error is ever produced.
pub proof fn lemma_all_failures_time_out(s: Seq<OutcomeV>, budget: nat, cmd: CommandV, sleep: bool)
    requires
        forall|i: int| 0 <= i < s.len() ==> s[i] is TransportFail,
    ensures
        run_trace(s, budget, cmd, sleep).outcome is Timeout,
        run_trace(s, budget, cmd, sleep).attempts == budget,
    decreases budget,
{
    if budget > 0 {
        if s.len() == 0 {
            lemma_all_failures_time_out(s, (budget - 1) as nat, cmd, sleep);
        } else {
            assert forall|i: int| 0 <= i < s.skip(1).len() implies s.skip(1)[i]
                is TransportFail by {
                assert(s.skip(1)[i] == s[i + 1]);
            }
            lemma_all_failures_time_out(s.skip(1), (budget - 1) as nat, cmd, sleep);
        }
    }
}

/// If the device answers attempts `1..n` with recoverable errors and
/// attempt `n` with data, and `n` is within the budget, the run succeeds
/// with that data after exactly `n` attempts.
pub proof fn lemma_recovery_succeeds(
    s: Seq<OutcomeV>,
    n: nat,
    budget: nat,
    cmd: CommandV,
    sleep: bool,
)
    requires
        1 <= n <= budget,
        n <= s.len(),
        forall|i: int|
            0 <= i < n - 1 ==> ((#[trigger] s[i]) matches OutcomeV::Respond(ResponseV::Error(e))
                && e.spec_recoverable()),
        s[n - 1] matches OutcomeV::Respond(ResponseV::Data(d)),
    ensures
        (run_trace(s, budget, cmd, sleep).outcome matches RunOutcome::Data(d)
            && (s[n - 1] matches OutcomeV::Respond(ResponseV::Data(d0)) && d == d0)),
        run_trace(s, budget, cmd, sleep).attempts == n,
        run_trace(s, budget, cmd, sleep).consumed == n,
    decreases n,
{
    if n == 1 {
    } else {
        assert(s[0] matches OutcomeV::Respond(ResponseV::Error(e)) && e.spec_recoverable());
        assert forall|i: int|
            0 <= i < n - 2 implies (#[trigger] s.skip(1)[i]) matches OutcomeV::Respond(
            ResponseV::Error(e),
        ) && e.spec_recoverable() by {
            assert(s.skip(1)[i] == s[i + 1]);
        }
        assert(s.skip(1)[n - 2] == s[n - 1]);
        lemma_recovery_succeeds(s.skip(1), (n - 1) as nat, (budget - 1) as nat, cmd, sleep);
    }
}

} // verus!
