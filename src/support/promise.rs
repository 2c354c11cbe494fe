//! A value that may not have arrived yet, received over a one-shot channel.
use vstd::prelude::*;

verus! {

#[verifier::external_type_specification]
#[verifier::external_body]
#[verifier::reject_recursive_types(T)]
pub struct ExOneshotSender<T>(::tokio::sync::oneshot::Sender<T>);

#[verifier::external_type_specification]
#[verifier::external_body]
pub struct ExOneshotRecvError(::tokio::sync::oneshot::error::RecvError);

#[verifier::external_type_specification]
#[verifier::external_body]
#[verifier::reject_recursive_types(T)]
pub struct ExOneshotReceiver<T>(::tokio::sync::oneshot::Receiver<T>);

/// A receiver that one look found still waiting for its value. It has not
/// finished, so it can be awaited.
#[verifier::reject_recursive_types(T)]
pub struct LiveReceiver<T> {
    rx: ::tokio::sync::oneshot::Receiver<T>,
}

impl<T> LiveReceiver<T> {
    /// The receiver itself, to be awaited.
    pub fn into_inner(self) -> ::tokio::sync::oneshot::Receiver<T> {
        self.rx
    }
}

/// What one look at a one-shot receiver found: the value, nothing yet (and
/// the receiver, still live), or a channel whose sender is gone.
#[verifier::reject_recursive_types(T)]
pub enum Polled<T> {
    Value(T),
    NotYet(LiveReceiver<T>),
    Closed,
}

/// Relies on `tokio::sync::oneshot::channel`: a fresh pair of connected ends.
#[verifier::external_body]
fn oneshot_pair<T>() -> (r: (::tokio::sync::oneshot::Sender<T>, ::tokio::sync::oneshot::Receiver<T>)) {
    ::tokio::sync::oneshot::channel()
}

/// Relies on `tokio::sync::oneshot::Receiver::try_recv`: the value if it was
/// sent; nothing yet while the sender lives, which leaves the receiver
/// unfinished; closed once the sender is gone or the receiver has finished.
/// It never panics.
#[verifier::external_body]
fn poll_receiver<T>(rx: ::tokio::sync::oneshot::Receiver<T>) -> (r: Polled<T>) {
    let mut rx = rx;
    match rx.try_recv() {
        Ok(x) => Polled::Value(x),
        Err(::tokio::sync::oneshot::error::TryRecvError::Empty) => Polled::NotYet(LiveReceiver { rx }),
        Err(::tokio::sync::oneshot::error::TryRecvError::Closed) => Polled::Closed,
    }
}

/// Relies on `futures_lite::future::block_on`: waits for the receiver, which
/// yields the value, or an error when the sender is dropped without one. A
/// live receiver has not finished, so polling it does not panic.
#[verifier::external_body]
fn wait_receiver<T>(live: LiveReceiver<T>) -> (r: Option<T>) {
    ::futures_lite::future::block_on(live.rx).ok()
}

/// Relies on `tokio::sync::oneshot::Sender::send`: fails only when the
/// receiver is gone.
#[verifier::external_body]
pub(crate) fn send_oneshot<T>(tx: ::tokio::sync::oneshot::Sender<T>, value: T) -> (delivered: bool) {
    tx.send(value).is_ok()
}

#[verifier::reject_recursive_types(T)]
enum Inner<T> {
    Pending(::tokio::sync::oneshot::Receiver<T>),
    Ready(T),
    Empty,
}

/// A promise represents a value that may not yet have been received.
///
/// It is pending while the value may still come, ready once it came, and empty
/// when it never will. Unlike a bare receiver, a promise keeps the value after
/// it was received.
#[verifier::reject_recursive_types(T)]
pub struct Promise<T> {
    inner: Inner<T>,
}

impl<T> Promise<T> {
    /// The value may still arrive.
    pub closed spec fn is_pending(&self) -> bool {
        self.inner is Pending
    }

    /// The value, once it has arrived and while it has not been taken.
    pub closed spec fn value(&self) -> Option<T> {
        match self.inner {
            Inner::Ready(v) => Some(v),
            _ => None,
        }
    }

    /// Construct a promise from the channel it will receive the value on.
    pub fn new(rx: ::tokio::sync::oneshot::Receiver<T>) -> (r: Self)
        ensures
            r.is_pending(),
            r.value() is None,
    {
        Promise { inner: Inner::Pending(rx) }
    }

    /// Construct a promise containing a value.
    pub fn ready(val: T) -> (r: Self)
        ensures
            !r.is_pending(),
            r.value() == Some(val),
    {
        Promise { inner: Inner::Ready(val) }
    }

    /// An empty promise will always resolve to no value.
    pub fn empty() -> (r: Self)
        ensures
            !r.is_pending(),
            r.value() is None,
    {
        Promise { inner: Inner::Empty }
    }

    /// Create a promise and its corresponding sender.
    pub fn channel() -> (r: (::tokio::sync::oneshot::Sender<T>, Self))
        ensures
            r.1.is_pending(),
            r.1.value() is None,
    {
        let (tx, rx) = oneshot_pair();
        (tx, Self::new(rx))
    }

    /// Records what one look at the channel of a pending promise found: a
    /// value makes it ready with that value, nothing yet keeps it pending on
    /// the live receiver, and a closed channel makes it empty.
    pub fn apply_poll(&mut self, p: Polled<T>)
        ensures
            match p {
                Polled::Value(v) => !final(self).is_pending() && final(self).value() == Some(v),
                Polled::NotYet(_) => final(self).is_pending() && final(self).value() is None,
                Polled::Closed => !final(self).is_pending() && final(self).value() is None,
            },
    {
        match p {
            Polled::Value(x) => {
                self.inner = Inner::Ready(x);
            },
            Polled::NotYet(live) => {
                self.inner = Inner::Pending(live.rx);
            },
            Polled::Closed => {
                self.inner = Inner::Empty;
            },
        }
    }

    /// Looks once at the channel of a pending promise, and records what it
    /// found with `apply_poll`.
    fn check_rx(&mut self)
        ensures
            !old(self).is_pending() ==> *final(self) == *old(self),
    {
        if matches!(self.inner, Inner::Pending(_)) {
            let mut out = Inner::Empty;
            std::mem::swap(&mut self.inner, &mut out);
            if let Inner::Pending(rx) = out {
                self.apply_poll(poll_receiver(rx));
            }
        }
    }

    /// Check if a value is ready in the promise.
    pub fn is_ready(&mut self) -> (r: bool)
        ensures
            r == final(self).value() is Some,
            !old(self).is_pending() ==> *final(self) == *old(self),
    {
        self.check_rx();
        matches!(self.inner, Inner::Ready(_))
    }

    /// Check if the promise is empty, i.e. will never resolve.
    pub fn is_empty(&mut self) -> (r: bool)
        ensures
            r == (!final(self).is_pending() && final(self).value() is None),
            !old(self).is_pending() ==> *final(self) == *old(self),
    {
        self.check_rx();
        matches!(self.inner, Inner::Empty)
    }

    /// The value, if it has arrived.
    pub fn get(&mut self) -> (r: Option<&T>)
        ensures
            !old(self).is_pending() ==> *final(self) == *old(self),
            r is Some <==> final(self).value() is Some,
            r matches Some(v) ==> final(self).value() == Some(*v),
    {
        self.check_rx();
        match &self.inner {
            Inner::Ready(x) => Some(x),
            _ => None,
        }
    }

    /// Take the value out of the promise, leaving an empty promise in its place.
    pub fn take(&mut self) -> (r: Option<T>)
        ensures
            !old(self).is_pending() ==> r == old(self).value() && !final(self).is_pending(),
            r is Some ==> !final(self).is_pending(),
            final(self).value() is None,
    {
        self.check_rx();
        if let Inner::Pending(_) = &self.inner {
            return None;
        }
        let mut out = Inner::Empty;
        std::mem::swap(&mut self.inner, &mut out);
        match out {
            Inner::Ready(x) => Some(x),
            _ => None,
        }
    }

    /// What the promise holds once it is no longer pending, or, when one more
    /// look finds nothing yet, the live receiver it still waits on.
    pub fn settled(self) -> (r: Result<Option<T>, LiveReceiver<T>>)
        ensures
            !self.is_pending() ==> r == Ok::<Option<T>, LiveReceiver<T>>(self.value()),
    {
        match self.inner {
            Inner::Pending(rx) => match poll_receiver(rx) {
                Polled::Value(x) => Ok(Some(x)),
                Polled::NotYet(live) => Err(live),
                Polled::Closed => Ok(None),
            },
            Inner::Ready(x) => Ok(Some(x)),
            Inner::Empty => Ok(None),
        }
    }

    /// Block the current thread, waiting for the promise to be resolved.
    pub fn block_on(self) -> (r: Option<T>)
        ensures
            !self.is_pending() ==> r == self.value(),
    {
        match self.inner {
            Inner::Pending(rx) => match poll_receiver(rx) {
                Polled::Value(x) => Some(x),
                Polled::NotYet(live) => wait_receiver(live),
                Polled::Closed => None,
            },
            Inner::Ready(x) => Some(x),
            Inner::Empty => None,
        }
    }
}

} // verus!
