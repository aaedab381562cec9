//! What a listener is made from, and the one way in which a configuration can
//! name nothing to make it from.

use vstd::prelude::*;

verus! {

/// One request to the operating system for a listener.
#[derive(Debug, PartialEq, Eq)]
pub enum Target {
    /// Take over the socket behind this descriptor. Nothing checks that the
    /// descriptor is open or that it is a socket: that is the caller's word.
    Descriptor(i32),
    /// Open a new socket and bind it to this address and port.
    Address { address: String, port: u16 },
}

/// A [`Target`] as contracts see it.
pub enum TargetView {
    Descriptor(i32),
    Address { address: Seq<char>, port: u16 },
}

impl View for Target {
    type V = TargetView;

    open spec fn view(&self) -> TargetView {
        match *self {
            Target::Descriptor(fd) => TargetView::Descriptor(fd),
            Target::Address { address, port } => TargetView::Address { address: address@, port },
        }
    }
}

/// Why a configuration gives no target.
#[derive(Clone, Copy, Debug, PartialEq, Eq, Structural)]
pub enum BindError {
    /// Neither a port nor a descriptor was supplied.
    NoPort,
}

/// Why an operation gave its caller no listener.
#[derive(Debug, PartialEq, Eq)]
pub enum Failure<E> {
    /// The configuration named no target, and nothing was asked.
    Config(BindError),
    /// The operating system refused, with this error.
    Os(E),
}

impl BindError {
    /// The text shown for this error.
    pub fn message(&self) -> (text: &'static str)
        ensures
            text@ == "No port supplied."@,
    {
        "No port supplied."
    }
}

} // verus!
