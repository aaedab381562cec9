//! Whole operations, as the caller and the operating system see them.
//!
//! The functions of [`crate::resolve`] decide one step at a time. Here the
//! steps are put together: which requests one operation makes, in which
//! order, and what its caller is handed in the end. The operating system is
//! a sequence of answers, the first to the first request and so on. Its
//! answers are whatever they are, so every statement made over a run holds
//! of all of them. A run is only meant where the sequence has an answer for
//! each of its requests: see [`fully_answered`].

use vstd::prelude::*;
use crate::config::PortView;
use crate::resolve::AttemptView;
use crate::target::{BindError, Failure, TargetView};

verus! {

/// One operation from start to end.
pub struct Run<L, E> {
    /// The requests made of the operating system, in order.
    pub requests: Seq<TargetView>,
    /// What the caller is handed.
    pub result: Result<L, Failure<E>>,
}

/// An answer of the operating system as the caller receives it: the listener
/// or the error, unchanged.
pub open spec fn handed<L, E>(outcome: Result<L, E>) -> Result<L, Failure<E>> {
    match outcome {
        Ok(listener) => Ok(listener),
        Err(error) => Err(Failure::Os(error)),
    }
}

/// The plain operation on `cfg`: one request for the configuration's target,
/// whose answer is the result; or, without a target, no request at all.
pub open spec fn bind_run<L, E>(cfg: PortView, answers: Seq<Result<L, E>>) -> Run<L, E> {
    match cfg.target() {
        Some(target) => Run { requests: seq![target], result: handed(answers[0]) },
        None => Run { requests: Seq::empty(), result: Err(Failure::Config(BindError::NoPort)) },
    }
}

/// The number of requests that may still follow the one that is due.
pub open spec fn requests_behind(attempt: AttemptView) -> nat {
    if attempt.fallback is Some {
        1
    } else {
        0
    }
}

/// The procedure from `attempt` on: its request is made, and the answer is
/// either the result or the reason to go on with the next attempt.
pub open spec fn run_from<L, E>(attempt: AttemptView, answers: Seq<Result<L, E>>) -> Run<L, E>
    decreases requests_behind(attempt),
{
    if attempt.retries(answers[0]) {
        let rest = run_from(attempt.next(), answers.drop_first());
        Run { requests: seq![attempt.target] + rest.requests, result: rest.result }
    } else {
        Run { requests: seq![attempt.target], result: handed(answers[0]) }
    }
}

/// The operation on `cfg` that falls back to `port`.
pub open spec fn bind_or_run<L, E>(cfg: PortView, port: u16, answers: Seq<Result<L, E>>) -> Run<
    L,
    E,
> {
    run_from(cfg.first_attempt(port), answers)
}

/// Whether `answers` holds an answer for each request of `run`.
pub open spec fn fully_answered<L, E>(run: Run<L, E>, answers: Seq<Result<L, E>>) -> bool {
    run.requests.len() <= answers.len()
}

} // verus!
