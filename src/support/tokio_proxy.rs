//! A proxy over an unbounded `tokio` channel.
use vstd::prelude::*;

use crate::Proxy;

pub use crate::returnval::TokioRetval;

verus! {

#[verifier::external_type_specification]
#[verifier::external_body]
#[verifier::reject_recursive_types(T)]
pub struct ExUnboundedSender<T>(::tokio::sync::mpsc::UnboundedSender<T>);

/// Relies on `tokio::sync::mpsc::UnboundedSender::send`: queues the message
/// without waiting, and fails only when the receiver is closed.
#[verifier::external_body]
fn send_unbounded<Msg>(sender: &::tokio::sync::mpsc::UnboundedSender<Msg>, msg: Msg) -> (delivered: bool) {
    sender.send(msg).is_ok()
}

/// A proxy that sends each message through an unbounded `tokio` channel.
#[verifier::reject_recursive_types(Msg)]
pub struct TokioProxy<Msg> {
    sender: ::tokio::sync::mpsc::UnboundedSender<Msg>,
}

impl<Msg> TokioProxy<Msg> {
    /// The channel that the messages go to.
    pub closed spec fn channel(&self) -> ::tokio::sync::mpsc::UnboundedSender<Msg> {
        self.sender
    }

    pub fn new(sender: ::tokio::sync::mpsc::UnboundedSender<Msg>) -> (r: Self)
        ensures
            r.channel() == sender,
    {
        TokioProxy { sender }
    }
}

impl<Msg> Proxy<Msg> for TokioProxy<Msg> {
    /// A message sent after the receiver is closed is dropped.
    fn send(&self, msg: Msg) {
        let _ = send_unbounded(&self.sender, msg);
    }
}

} // verus!
