//! The listening options of one program, as its command line gave them.

use vstd::prelude::*;

verus! {

/// The address, port and inherited descriptor that a program was started
/// with. The value is filled once and only read afterwards.
///
/// A port and a descriptor are not meant to be given together, and the
/// command line refuses the pair. Nothing here relies on that: where both
/// are present the descriptor is used.
#[derive(Debug)]
pub struct Port {
    address: String,
    port: Option<u16>,
    fd: Option<i32>,
}

/// A [`Port`] as contracts see it.
pub struct PortView {
    pub address: Seq<char>,
    pub port: Option<u16>,
    pub fd: Option<i32>,
}

impl View for Port {
    type V = PortView;

    closed spec fn view(&self) -> PortView {
        PortView { address: self.address@, port: self.port, fd: self.fd }
    }
}

impl Port {
    /// A configuration with exactly these three values.
    pub fn new(address: String, port: Option<u16>, fd: Option<i32>) -> (cfg: Port)
        ensures
            cfg@ == (PortView { address: address@, port, fd }),
    {
        Port { address, port, fd }
    }

    /// The address to listen on.
    pub fn address(&self) -> (address: &str)
        ensures
            address@ == self@.address,
    {
        self.address.as_str()
    }

    /// The port that was asked for, if one was.
    pub fn port(&self) -> (port: Option<u16>)
        ensures
            port == self@.port,
    {
        self.port
    }

    /// The descriptor that was handed down, if one was.
    pub fn fd(&self) -> (fd: Option<i32>)
        ensures
            fd == self@.fd,
    {
        self.fd
    }
}

impl Default for Port {
    /// What an empty command line gives: the loopback address, no port and
    /// no descriptor.
    fn default() -> (cfg: Port)
        ensures
            cfg@ == (PortView { address: "127.0.0.1"@, port: None, fd: None }),
    {
        Port { address: "127.0.0.1".to_owned(), port: None, fd: None }
    }
}

} // verus!
