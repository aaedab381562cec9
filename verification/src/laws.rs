//! What holds of every run, whatever the configuration holds and whatever
//! the operating system answers.

use vstd::prelude::*;
use crate::config::PortView;
use crate::run::{bind_or_run, bind_run, fully_answered, handed, run_from, Run};
use crate::target::{BindError, Failure, TargetView};

verus! {

impl PortView {
    /// This configuration's address with `port` as the port and without a
    /// descriptor.
    pub open spec fn with_port(self, port: u16) -> PortView {
        PortView { address: self.address, port: Some(port), fd: None }
    }
}

/// With a port and no descriptor, the plain operation asks once, for the
/// address with that port, and its caller gets the answer: a listener
/// exactly when the operating system grants the request.
pub proof fn lemma_port_is_asked_for<L, E>(cfg: PortView, port: u16, answers: Seq<Result<L, E>>)
    requires
        cfg.fd is None,
        cfg.port == Some(port),
        fully_answered(bind_run(cfg, answers), answers),
    ensures
        bind_run(cfg, answers).requests == seq![
            (TargetView::Address { address: cfg.address, port }),
        ],
        bind_run(cfg, answers).result == handed(answers[0]),
        bind_run(cfg, answers).result is Ok <==> answers[0] is Ok,
{
}

/// With neither a port nor a descriptor, the plain operation fails with the
/// configuration error and asks nothing, whatever the address is.
pub proof fn lemma_nothing_supplied<L, E>(cfg: PortView, answers: Seq<Result<L, E>>)
    requires
        cfg.fd is None,
        cfg.port is None,
    ensures
        bind_run(cfg, answers) == (Run::<L, E> {
            requests: Seq::empty(),
            result: Err(Failure::Config(BindError::NoPort)),
        }),
{
}

/// With a descriptor, the plain operation asks for that descriptor and for
/// nothing else. The address and the port play no part: two configurations
/// with the same descriptor run alike, also where a port is set beside it.
pub proof fn lemma_descriptor_comes_first<L, E>(
    cfg: PortView,
    other: PortView,
    fd: i32,
    answers: Seq<Result<L, E>>,
)
    requires
        cfg.fd == Some(fd),
        other.fd == Some(fd),
        fully_answered(bind_run(cfg, answers), answers),
    ensures
        bind_run(cfg, answers).requests == seq![TargetView::Descriptor(fd)],
        bind_run(cfg, answers).result == handed(answers[0]),
        bind_run(cfg, answers) == bind_run(other, answers),
{
}

/// With a fallback port, the operation is the plain one wherever the plain
/// one gives a listener. Wherever the plain one fails, for whatever reason,
/// the operation goes on as the plain one would on the same address with the
/// fallback port and no descriptor, answered by what the operating system
/// says next; that second result is the result.
pub proof fn lemma_fallback_is_plain_bind<L, E>(
    cfg: PortView,
    port: u16,
    answers: Seq<Result<L, E>>,
)
    requires
        fully_answered(bind_or_run(cfg, port, answers), answers),
    ensures
        ({
            let plain = bind_run(cfg, answers);
            let again = bind_run(cfg.with_port(port), answers.skip(plain.requests.len() as int));
            let whole = bind_or_run(cfg, port, answers);
            &&& plain.result is Ok ==> whole == plain
            &&& plain.result is Err ==> whole.requests == plain.requests + again.requests
            &&& plain.result is Err ==> whole.result == again.result
        }),
{
    reveal_with_fuel(run_from, 2);
    let plain = bind_run(cfg, answers);
    let again = bind_run(cfg.with_port(port), answers.skip(plain.requests.len() as int));
    let whole = bind_or_run(cfg, port, answers);
    if plain.result is Err {
        assert(whole.requests =~= plain.requests + again.requests);
    }
}

/// With a fallback port, the operation asks once or twice, and only its
/// first request can be for a descriptor: what follows a refusal is always
/// an address with a port. So no descriptor is ever taken over twice.
pub proof fn lemma_descriptor_asked_once<L, E>(
    cfg: PortView,
    port: u16,
    answers: Seq<Result<L, E>>,
)
    requires
        fully_answered(bind_or_run(cfg, port, answers), answers),
    ensures
        1 <= bind_or_run(cfg, port, answers).requests.len() <= 2,
        forall|i: int|
            1 <= i < bind_or_run(cfg, port, answers).requests.len() ==> (#[trigger] bind_or_run(
                cfg,
                port,
                answers,
            ).requests[i]) is Address,
{
    reveal_with_fuel(run_from, 2);
}

} // verus!
