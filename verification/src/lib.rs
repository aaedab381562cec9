//! Where a network program listens: an address with a port, or a socket that
//! a parent process opened and handed down.
//!
//! The crate holds the rules by which that choice is made and proves them. It
//! opens no socket itself. A [`Port`] says what to ask of the operating
//! system, its caller asks, and where a fallback port is in play the answer
//! comes back here to decide whether a second request is due.
//!
//! - [`config`]: the options, as the command line gave them.
//! - [`target`]: what a listener is made from, and the errors.
//! - [`resolve`]: the decisions, one step at a time.
//! - [`drive`]: whole operations, run against the caller's way to a socket.
//! - [`run`]: whole operations as sequences of requests and answers.
//! - [`laws`]: what holds of every such sequence.

pub mod config;
pub mod drive;
pub mod laws;
pub mod resolve;
pub mod run;
pub mod target;

pub use config::{Port, PortView};
pub use resolve::{Attempt, AttemptView, Verdict};
pub use target::{BindError, Failure, Target, TargetView};
