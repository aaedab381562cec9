//! Whole operations, against an operating system that answers from a script
//! and keeps a record of what it was asked.

use std::cell::RefCell;

use clap_port_flag::{BindError, Failure, Port, Target};

/// A listener that remembers what it was made from.
#[derive(Debug, PartialEq, Eq)]
enum Listener {
    Bound(String, u16),
    Adopted(i32),
}

/// The port that the scripted system gives out when it is asked for port 0.
const EPHEMERAL: u16 = 49152;

/// An operating system that refuses the targets in `refused`, grants every
/// other, and keeps the requests.
struct Os {
    refused: Vec<Target>,
    asked: RefCell<Vec<Target>>,
}

impl Os {
    fn refusing(refused: Vec<Target>) -> Os {
        Os { refused, asked: RefCell::new(Vec::new()) }
    }

    fn request(&self, target: &Target) -> Result<Listener, String> {
        let copy = match target {
            Target::Descriptor(fd) => Target::Descriptor(*fd),
            Target::Address { address, port } => address_of(address, *port),
        };
        self.asked.borrow_mut().push(copy);
        if self.refused.contains(target) {
            return Err(format!("refused {:?}", target));
        }
        Ok(match target {
            Target::Descriptor(fd) => Listener::Adopted(*fd),
            Target::Address { address, port: 0 } => Listener::Bound(address.clone(), EPHEMERAL),
            Target::Address { address, port } => Listener::Bound(address.clone(), *port),
        })
    }

    fn asked(&self) -> Vec<Target> {
        self.asked.replace(Vec::new())
    }
}

fn address_of(address: &str, port: u16) -> Target {
    Target::Address { address: address.to_string(), port }
}

fn config(address: &str, port: Option<u16>, fd: Option<i32>) -> Port {
    Port::new(address.to_string(), port, fd)
}

#[test]
fn bind_with_asks_for_the_port() {
    let os = Os::refusing(vec![]);
    let res = config("127.0.0.1", Some(4000), None).bind_with(|t| os.request(t));
    assert_eq!(res, Ok(Listener::Bound("127.0.0.1".to_string(), 4000)));
    assert_eq!(os.asked(), vec![address_of("127.0.0.1", 4000)]);
}

#[test]
fn bind_with_leaves_port_zero_to_the_system() {
    let os = Os::refusing(vec![]);
    let res = config("127.0.0.1", Some(0), None).bind_with(|t| os.request(t));
    assert_eq!(res, Ok(Listener::Bound("127.0.0.1".to_string(), EPHEMERAL)));
    assert_eq!(os.asked(), vec![address_of("127.0.0.1", 0)]);
}

#[test]
fn bind_or_with_leaves_fallback_port_zero_to_the_system() {
    let os = Os::refusing(vec![address_of("127.0.0.1", 80)]);
    let res = config("127.0.0.1", Some(80), None).bind_or_with(0, |t| os.request(t));
    assert_eq!(res, Ok(Listener::Bound("127.0.0.1".to_string(), EPHEMERAL)));
    assert_eq!(os.asked(), vec![address_of("127.0.0.1", 80), address_of("127.0.0.1", 0)]);
}

#[test]
fn bind_with_hands_a_refusal_on() {
    let os = Os::refusing(vec![address_of("1.2.3.4", 1234)]);
    let res = config("1.2.3.4", Some(1234), None).bind_with(|t| os.request(t));
    assert_eq!(
        res,
        Err(Failure::Os(format!("refused {:?}", address_of("1.2.3.4", 1234))))
    );
    assert_eq!(os.asked(), vec![address_of("1.2.3.4", 1234)]);
}

#[test]
fn bind_with_asks_nothing_without_a_target() {
    let os = Os::refusing(vec![]);
    let res = config("127.0.0.1", None, None).bind_with(|t| os.request(t));
    assert_eq!(res, Err(Failure::Config(BindError::NoPort)));
    assert_eq!(os.asked(), vec![]);
}

#[test]
fn bind_with_takes_the_descriptor_whatever_else_is_set() {
    let os = Os::refusing(vec![]);
    let res = config("1.2.3.4", Some(1234), Some(3)).bind_with(|t| os.request(t));
    assert_eq!(res, Ok(Listener::Adopted(3)));
    assert_eq!(os.asked(), vec![Target::Descriptor(3)]);
}

#[test]
fn bind_or_with_is_bind_where_that_succeeds() {
    let os = Os::refusing(vec![]);
    let cfg = config("127.0.0.1", Some(4000), None);
    let plain = cfg.bind_with(|t| os.request(t));
    let plain_asked = os.asked();
    let with_fallback = cfg.bind_or_with(8080, |t| os.request(t));
    assert_eq!(plain, Ok(Listener::Bound("127.0.0.1".to_string(), 4000)));
    assert_eq!(with_fallback, Ok(Listener::Bound("127.0.0.1".to_string(), 4000)));
    assert_eq!(os.asked(), plain_asked);
}

#[test]
fn bind_or_with_goes_on_as_bind_with_the_fallback_port() {
    let os = Os::refusing(vec![address_of("127.0.0.1", 80)]);
    let with_fallback = config("127.0.0.1", Some(80), None).bind_or_with(8080, |t| os.request(t));
    assert_eq!(with_fallback, Ok(Listener::Bound("127.0.0.1".to_string(), 8080)));
    assert_eq!(os.asked(), vec![address_of("127.0.0.1", 80), address_of("127.0.0.1", 8080)]);

    let fresh = config("127.0.0.1", Some(8080), None).bind_with(|t| os.request(t));
    assert_eq!(fresh, Ok(Listener::Bound("127.0.0.1".to_string(), 8080)));
    assert_eq!(os.asked(), vec![address_of("127.0.0.1", 8080)]);
}

#[test]
fn bind_or_with_unreachable_address_fails_twice() {
    let os = Os::refusing(vec![address_of("1.2.3.4", 1234), address_of("1.2.3.4", 9999)]);
    let cfg = config("1.2.3.4", Some(1234), None);
    assert_eq!(
        cfg.bind_with(|t| os.request(t)),
        Err(Failure::Os(format!("refused {:?}", address_of("1.2.3.4", 1234))))
    );
    assert_eq!(os.asked(), vec![address_of("1.2.3.4", 1234)]);
    assert_eq!(
        cfg.bind_or_with(9999, |t| os.request(t)),
        Err(format!("refused {:?}", address_of("1.2.3.4", 9999)))
    );
    assert_eq!(os.asked(), vec![address_of("1.2.3.4", 1234), address_of("1.2.3.4", 9999)]);
}

#[test]
fn bind_or_with_without_a_port_binds_the_fallback() {
    let os = Os::refusing(vec![]);
    let cfg = config("127.0.0.1", None, None);
    assert_eq!(cfg.bind_with(|t| os.request(t)), Err(Failure::Config(BindError::NoPort)));
    assert_eq!(os.asked(), vec![]);
    assert_eq!(
        cfg.bind_or_with(8080, |t| os.request(t)),
        Ok(Listener::Bound("127.0.0.1".to_string(), 8080))
    );
    assert_eq!(os.asked(), vec![address_of("127.0.0.1", 8080)]);
}

#[test]
fn bind_or_with_without_a_port_hands_the_fallback_error_on() {
    let os = Os::refusing(vec![address_of("127.0.0.1", 8080)]);
    let res = config("127.0.0.1", None, None).bind_or_with(8080, |t| os.request(t));
    assert_eq!(res, Err(format!("refused {:?}", address_of("127.0.0.1", 8080))));
    assert_eq!(os.asked(), vec![address_of("127.0.0.1", 8080)]);
}

#[test]
fn bind_or_with_asks_for_the_descriptor_once() {
    let os = Os::refusing(vec![]);
    let res = config("127.0.0.1", Some(80), Some(3)).bind_or_with(8080, |t| os.request(t));
    assert_eq!(res, Ok(Listener::Adopted(3)));
    assert_eq!(os.asked(), vec![Target::Descriptor(3)]);

    let os = Os::refusing(vec![Target::Descriptor(3)]);
    let res = config("127.0.0.1", Some(80), Some(3)).bind_or_with(8080, |t| os.request(t));
    assert_eq!(res, Ok(Listener::Bound("127.0.0.1".to_string(), 8080)));
    assert_eq!(os.asked(), vec![Target::Descriptor(3), address_of("127.0.0.1", 8080)]);
}

#[test]
fn bind_or_with_same_port_twice() {
    let os = Os::refusing(vec![address_of("127.0.0.1", 8080)]);
    let res = config("127.0.0.1", Some(8080), None).bind_or_with(8080, |t| os.request(t));
    assert_eq!(res, Err(format!("refused {:?}", address_of("127.0.0.1", 8080))));
    assert_eq!(os.asked(), vec![address_of("127.0.0.1", 8080), address_of("127.0.0.1", 8080)]);
}
