//! Message enums, dispatchers and proxies for service objects.
use vstd::prelude::*;

pub mod analyze;
pub mod config;
pub mod expand;
pub mod generate;
pub mod laws;
pub mod model;
pub mod render;
pub mod returnval;
pub mod source;
pub mod support;
pub mod text;
pub mod tokens;

verus! {

/// Something that accepts messages of type `Msg` and delivers them.
pub trait Proxy<Msg> {
    fn send(&self, msg: Msg);
}

/// A family of return channels: what fails when a result cannot be handed back.
pub trait Returnval {
    type SendError;
}

/// A return channel for values of type `T`: a sender that a dispatched message
/// carries, and a receiver that the caller keeps.
pub trait ReturnChannel<T>: Returnval {
    type SendHalf;
    type RecvHalf;
    type RecvResult;

    fn create() -> (Self::SendHalf, Self::RecvHalf);

    fn send(tx: Self::SendHalf, msg: T) -> Result<(), Self::SendError>;

    fn recv(rx: Self::RecvHalf) -> Self::RecvResult;
}

/// Types with exactly one value, which can be made from nothing.
pub trait IsUnit: Sized {
    fn new() -> Self;
}

impl IsUnit for () {
    fn new() -> Self {
        ()
    }
}

/// A message that can be applied to a service.
pub trait CallMut<Service>: Sized {
    type Error;
    type Context;

    fn call_mut_with_ctx(self, service: &mut Service, context: Self::Context) -> Result<(), Self::Error>;

    fn call_mut(self, service: &mut Service) -> Result<(), Self::Error> where Self::Context: IsUnit {
        self.call_mut_with_ctx(service, Self::Context::new())
    }
}

/// A return channel for values of type `T` whose two ends are futures.
pub trait AsyncReturnval<T>: Returnval {
    type SendHalf;
    type RecvHalf;
    type RecvResult;
    type SendFuture: core::future::Future<Output = Result<(), Self::SendError>>;
    type RecvFuture: core::future::Future<Output = Self::RecvResult>;

    fn create() -> (Self::SendHalf, Self::RecvHalf);

    fn async_send(tx: Self::SendHalf, msg: T) -> Self::SendFuture;

    fn async_recv(rx: Self::RecvHalf) -> Self::RecvFuture;
}

/// A message that can be applied to a service by awaiting a future, for
/// services with asynchronous methods.
pub trait CallMutAsync<'a, Service: 'a>: Sized {
    type Error;
    type Context;
    type Future: core::future::Future<Output = Result<(), Self::Error>> + 'a;

    fn call_mut_async_with_ctx(self, service: &'a mut Service, context: Self::Context) -> Self::Future;

    fn call_mut_async(self, service: &'a mut Service) -> Self::Future where Self::Context: IsUnit {
        self.call_mut_async_with_ctx(service, Self::Context::new())
    }
}

} // verus!
