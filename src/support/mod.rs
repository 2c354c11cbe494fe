//! Ready-made proxies and return channels.
use std::marker::PhantomData;
use vstd::prelude::*;

use crate::Proxy;

pub mod flume_proxy;
pub mod promise;
pub mod tokio_proxy;

pub use crate::returnval::FailedToSendRetval;
pub use crate::returnval::LocalRetval;

verus! {

/// A proxy that hands every message to a function.
pub struct FnProxy<Msg, F: Fn(Msg)> {
    f: F,
    _phantom: PhantomData<Msg>,
}

impl<Msg, F: Fn(Msg)> FnProxy<Msg, F> {
    /// The function accepts every message.
    #[verifier::type_invariant]
    spec fn accepts_all(&self) -> bool {
        forall|m: Msg| call_requires(self.f, (m,))
    }

    /// The function that receives the messages.
    pub closed spec fn handler(&self) -> F {
        self.f
    }

    pub fn new(f: F) -> (r: Self)
        requires
            forall|m: Msg| call_requires(f, (m,)),
        ensures
            r.handler() == f,
    {
        FnProxy { f, _phantom: PhantomData }
    }
}

impl<Msg, F: Fn(Msg)> Proxy<Msg> for FnProxy<Msg, F> {
    fn send(&self, msg: Msg) {
        proof {
            use_type_invariant(self);
        }
        (self.f)(msg)
    }
}

} // verus!
