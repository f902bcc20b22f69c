//! The wake signal: a waker bound to one proactor.
//!
//! Whoever holds the signal may invoke it, from any thread and as often as
//! they like. Each time, the host is handed the proactor's wake request and
//! nothing else happens.

use crate::proactor::{Proactor, Request};
use std::task::Waker;
use vstd::prelude::*;
use waker_fn::waker_fn;

verus! {

/// `std::task::Waker`: the handle through which a computation asks to be
/// polled again.
#[verifier::external_type_specification]
#[verifier::external_body]
pub struct ExWaker(Waker);

/// One invocation of the wake signal: hands the host the wake request of
/// `proactor`.
pub fn invoke<W: Fn(Request)>(proactor: &Proactor, perform: &W)
    requires
        perform.requires((Request::Wake,)),
    ensures
        perform.ensures((Request::Wake,), ()),
{
    perform(proactor.wake())
}

/// `waker_fn::waker_fn`: a waker that runs the given closure every time it
/// is woken, by value or by reference. Nothing is claimed of the waker; the
/// closure it is made of is one call of `invoke`.
#[verifier::external_body]
fn waker_of<W: Fn(Request) + Send + Sync + 'static>(
    proactor: &'static Proactor,
    perform: W,
) -> (waker: Waker)
    requires
        perform.requires((Request::Wake,)),
{
    waker_fn(move || invoke(proactor, &perform))
}

/// The wake signal of one drive, invoked from any thread, also while nobody
/// waits: it runs the host's closure on its proactor's wake request.
pub struct WakeSignal {
    proactor: &'static Proactor,
    waker: Waker,
}

impl WakeSignal {
    /// The waker to poll the computation with.
    pub closed spec fn spec_waker(&self) -> &Waker {
        &self.waker
    }

    /// A signal bound to `proactor`. Every invocation hands `perform` the
    /// proactor's wake request.
    pub fn new<W: Fn(Request) + Send + Sync + 'static>(
        proactor: &'static Proactor,
        perform: W,
    ) -> (signal: Self)
        requires
            perform.requires((Request::Wake,)),
        ensures
            signal.spec_proactor() == proactor,
    {
        WakeSignal { proactor, waker: waker_of(proactor, perform) }
    }

    /// The proactor that the signal is bound to.
    pub closed spec fn spec_proactor(&self) -> &'static Proactor {
        self.proactor
    }

    /// The proactor that the signal is bound to: the one whose wake request
    /// an invocation hands to the host.
    #[verifier::when_used_as_spec(spec_proactor)]
    pub fn proactor(&self) -> (proactor: &'static Proactor)
        ensures
            proactor == self.spec_proactor(),
    {
        self.proactor
    }

    /// The waker to poll the computation with.
    pub fn waker(&self) -> (waker: &Waker)
        ensures
            waker == self.spec_waker(),
    {
        &self.waker
    }
}

} // verus!
