//! Whole operations, run against a caller's function that asks the operating
//! system.
//!
//! The function is the caller's way to a listener: it is handed a target and
//! answers with a listener or an error, of whatever types the caller's
//! sockets have. What it does is not known here. The contracts say which
//! targets it is asked for and that its answers are handed on as they are,
//! first case by case and then in the terms of [`crate::run`].

use vstd::prelude::*;
use crate::config::Port;
use crate::resolve::Verdict;
use crate::run::{bind_or_run, bind_run, handed, run_from, Run};
use crate::target::{BindError, Failure, Target, TargetView};

verus! {

/// Whether `answer` is what `request` may say when it is asked for `target`.
pub open spec fn answers_to<L, E, F: Fn(&Target) -> Result<L, E>>(
    request: F,
    target: TargetView,
    answer: Result<L, E>,
) -> bool {
    exists|asked: Target| asked@ == target && call_ensures(request, (&asked,), answer)
}

/// Whether `answers` are what `request` said to the requests of `run`: one
/// answer for each request, the first to the first and so on.
pub open spec fn answered<L, E, F: Fn(&Target) -> Result<L, E>>(
    request: F,
    run: Run<L, E>,
    answers: Seq<Result<L, E>>,
) -> bool {
    &&& answers.len() == run.requests.len()
    &&& forall|i: int|
        0 <= i < run.requests.len() ==> answers_to(request, #[trigger] run.requests[i], answers[i])
}

impl Port {
    /// Asks `request` for the target of [`Port::bind`] and hands its answer
    /// on. Without a target nothing is asked, and the configuration error is
    /// the result.
    ///
    /// `request` must accept that target; nothing else is asked of it.
    pub fn bind_with<L, E, F: Fn(&Target) -> Result<L, E>>(&self, request: F) -> (res: Result<
        L,
        Failure<E>,
    >)
        requires
            forall|target: &Target|
                self@.target() == Some(target@) ==> #[trigger] call_requires(request, (target,)),
        ensures
            match self@.target() {
                Some(target) => exists|answer: Result<L, E>|
                    #[trigger] answers_to(request, target, answer) && res == handed(answer),
                None => res == Err::<L, Failure<E>>(Failure::Config(BindError::NoPort)),
            },
            exists|answers: Seq<Result<L, E>>|
                answered(request, #[trigger] bind_run(self@, answers), answers) && res == bind_run(
                    self@,
                    answers,
                ).result,
    {
        match self.bind() {
            Ok(target) => {
                let answer = request(&target);
                proof {
                    let answers = seq![answer];
                    assert(answers_to(request, target@, answer));
                    assert(answered(request, bind_run(self@, answers), answers));
                }
                match answer {
                    Ok(listener) => Ok(listener),
                    Err(error) => Err(Failure::Os(error)),
                }
            },
            Err(error) => {
                proof {
                    let answers = Seq::<Result<L, E>>::empty();
                    assert(answered(request, bind_run(self@, answers), answers));
                }
                Err(Failure::Config(error))
            },
        }
    }

    /// Asks `request` for the target of [`Port::bind`], and after a refusal,
    /// or where there is no such target, for the configured address with
    /// `port`. The first listener is the result; failing that, the answer to
    /// the request for `port` is, as it stands.
    ///
    /// `request` must accept those two targets; nothing else is asked of it.
    pub fn bind_or_with<L, E, F: Fn(&Target) -> Result<L, E>>(&self, port: u16, request: F) -> (res:
        Result<L, E>)
        requires
            forall|target: &Target|
                self@.target() == Some(target@) || target@ == self@.fallback(port)
                    ==> #[trigger] call_requires(request, (target,)),
        ensures
            match self@.target() {
                Some(target) => {
                    ||| res is Ok && answers_to(request, target, res)
                    ||| exists|refusal: E| #[trigger]
                        answers_to(request, target, Err::<L, E>(refusal)) && answers_to(
                            request,
                            self@.fallback(port),
                            res,
                        )
                },
                None => answers_to(request, self@.fallback(port), res),
            },
            exists|answers: Seq<Result<L, E>>|
                answered(request, #[trigger] bind_or_run(self@, port, answers), answers) && handed(
                    res,
                ) == bind_or_run(self@, port, answers).result,
    {
        let first = self.bind_or(port);
        let answer = request(&first.target);
        let ghost first_answer = answer;
        proof {
            assert(answers_to(request, first@.target, first_answer));
        }
        match first.settle(answer) {
            Verdict::Settled(res) => {
                proof {
                    let answers = seq![first_answer];
                    assert(answered(request, bind_or_run(self@, port, answers), answers));
                }
                res
            },
            Verdict::Retry(second) => {
                let res = request(&second.target);
                proof {
                    let answers = seq![first_answer, res];
                    reveal_with_fuel(run_from, 2);
                    assert(answers_to(request, second@.target, res));
                    assert(answered(request, bind_or_run(self@, port, answers), answers));
                }
                res
            },
        }
    }
}

} // verus!
