//! A proxy over a `flume` channel.
use vstd::prelude::*;

use crate::Proxy;

verus! {

#[verifier::external_type_specification]
#[verifier::external_body]
#[verifier::reject_recursive_types(T)]
pub struct ExFlumeSender<T>(::flume::Sender<T>);

/// Relies on `flume::Sender::send`: queues the message, and fails only when
/// every receiver is gone.
#[verifier::external_body]
fn send_on<Msg>(sender: &::flume::Sender<Msg>, msg: Msg) -> (delivered: bool) {
    sender.send(msg).is_ok()
}

/// A proxy that sends each message through a `flume` channel.
#[verifier::reject_recursive_types(Msg)]
pub struct FlumeProxy<Msg> {
    sender: ::flume::Sender<Msg>,
}

impl<Msg> FlumeProxy<Msg> {
    /// The channel that the messages go to.
    pub closed spec fn channel(&self) -> ::flume::Sender<Msg> {
        self.sender
    }

    pub fn new(sender: ::flume::Sender<Msg>) -> (r: Self)
        ensures
            r.channel() == sender,
    {
        FlumeProxy { sender }
    }
}

impl<Msg> Proxy<Msg> for FlumeProxy<Msg> {
    /// A message sent after the receiving side is gone is dropped.
    fn send(&self, msg: Msg) {
        let _ = send_on(&self.sender, msg);
    }
}

} // verus!
