//! From a configuration to the requests made of the operating system.
//!
//! [`Port::bind`] names the one target that a configuration stands for.
//! [`Port::bind_or`] starts the procedure with a fallback port: it names the
//! first request, and [`Attempt::settle`] says after each answer whether the
//! procedure is over or one more request is due. The caller makes the
//! requests; the listener and the error are of whatever type its sockets
//! have.

use vstd::prelude::*;
use crate::config::{Port, PortView};
use crate::target::{BindError, Target, TargetView};

verus! {

impl PortView {
    /// The target that this configuration stands for: the descriptor where
    /// there is one, else the address with the port, else nothing.
    pub open spec fn target(self) -> Option<TargetView> {
        match self.fd {
            Some(fd) => Some(TargetView::Descriptor(fd)),
            None => match self.port {
                Some(port) => Some(TargetView::Address { address: self.address, port }),
                None => None,
            },
        }
    }

    /// The configured address with `port`, which is what a fallback binds.
    pub open spec fn fallback(self, port: u16) -> TargetView {
        TargetView::Address { address: self.address, port }
    }

    /// The first request of the procedure with fallback port `port`. Where
    /// the configuration has a target of its own, that comes first and the
    /// fallback is kept for later; where it has none, the fallback is all
    /// there is.
    pub open spec fn first_attempt(self, port: u16) -> AttemptView {
        match self.target() {
            Some(target) => AttemptView { target, fallback: Some(self.fallback(port)) },
            None => AttemptView { target: self.fallback(port), fallback: None },
        }
    }
}

/// A request that is due, and the request to make if it is refused.
#[derive(Debug, PartialEq, Eq)]
pub struct Attempt {
    pub target: Target,
    pub fallback: Option<Target>,
}

/// An [`Attempt`] as contracts see it.
pub struct AttemptView {
    pub target: TargetView,
    pub fallback: Option<TargetView>,
}

impl View for Attempt {
    type V = AttemptView;

    open spec fn view(&self) -> AttemptView {
        AttemptView {
            target: self.target@,
            fallback: match self.fallback {
                Some(target) => Some(target@),
                None => None,
            },
        }
    }
}

impl AttemptView {
    /// Whether another request follows the answer `outcome`: only after a
    /// refusal, and only while a fallback is left.
    pub open spec fn retries<L, E>(self, outcome: Result<L, E>) -> bool {
        outcome is Err && self.fallback is Some
    }

    /// The attempt that follows a refusal: the fallback, with nothing behind
    /// it.
    pub open spec fn next(self) -> AttemptView
        recommends
            self.fallback is Some,
    {
        AttemptView { target: self.fallback.unwrap(), fallback: None }
    }
}

/// What follows the answer to a request.
#[derive(Debug, PartialEq, Eq)]
pub enum Verdict<L, E> {
    /// The procedure is over, and this answer is its result as it stands.
    Settled(Result<L, E>),
    /// The answer is dropped, and this request is made in its place.
    Retry(Attempt),
}

impl Port {
    /// Names the target to ask the operating system for.
    ///
    /// A descriptor comes before everything else: where one is present it is
    /// the target, whatever the address and the port are. Without a
    /// descriptor the target is the address with the port. With neither a
    /// descriptor nor a port there is no target, and the error says so.
    pub fn bind(&self) -> (res: Result<Target, BindError>)
        ensures
            self@.fd matches Some(fd) ==> (res matches Ok(target) && target@
                == TargetView::Descriptor(fd)),
            self@.fd is None ==> (self@.port matches Some(port) ==> (res matches Ok(target)
                && target@ == (TargetView::Address { address: self@.address, port }))),
            self@.fd is None && self@.port is None ==> res == Err::<Target, BindError>(
                BindError::NoPort,
            ),
            match res {
                Ok(target) => self@.target() == Some(target@),
                Err(_) => self@.target() is None,
            },
    {
        match self.fd() {
            Some(fd) => Ok(Target::Descriptor(fd)),
            None => match self.port() {
                Some(port) => Ok(Target::Address { address: self.address().to_owned(), port }),
                None => Err(BindError::NoPort),
            },
        }
    }

    /// Starts the procedure that falls back to `port`, and names its first
    /// request.
    ///
    /// The target of [`Port::bind`] is tried first, with the configured
    /// address and `port` kept as the fallback. Where `bind` has no target,
    /// its error is dropped and the address with `port` is the first and only
    /// request.
    pub fn bind_or(&self, port: u16) -> (attempt: Attempt)
        ensures
            attempt@ == self@.first_attempt(port),
    {
        let fallback = Target::Address { address: self.address().to_owned(), port };
        match self.bind() {
            Ok(target) => Attempt { target, fallback: Some(fallback) },
            Err(_) => Attempt { target: fallback, fallback: None },
        }
    }
}

impl Attempt {
    /// Decides what follows the answer `outcome` to this attempt's request.
    ///
    /// A listener ends the procedure. So does a refusal with no fallback
    /// left. Either way the answer is handed on untouched. A refusal with a
    /// fallback left is dropped, whatever its reason, and the fallback becomes
    /// the next and last request.
    pub fn settle<L, E>(self, outcome: Result<L, E>) -> (verdict: Verdict<L, E>)
        ensures
            !self@.retries(outcome) ==> verdict == Verdict::Settled(outcome),
            self@.retries(outcome) ==> (verdict matches Verdict::Retry(next) && next@
                == self@.next()),
    {
        match outcome {
            Ok(listener) => Verdict::Settled(Ok(listener)),
            Err(error) => match self.fallback {
                Some(target) => Verdict::Retry(Attempt { target, fallback: None }),
                None => Verdict::Settled(Err(error)),
            },
        }
    }
}

} // verus!
