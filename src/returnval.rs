//! Return channels shipped with the library.
use std::cell::RefCell;
use std::cell::RefMut;
use std::rc::Rc;
use vstd::prelude::*;

use crate::support::promise::send_oneshot;
use crate::support::promise::Promise;
use crate::ReturnChannel;
use crate::Returnval;

verus! {

#[verifier::external_type_specification]
#[verifier::external_body]
#[verifier::reject_recursive_types(T)]
pub struct ExRefCell<T: ?Sized>(RefCell<T>);

/// Relies on `RefCell::new`: a cell holding nothing yet.
#[verifier::external_body]
fn empty_slot<T>() -> (r: RefCell<Option<T>>) {
    RefCell::new(None)
}

/// Relies on `Rc::clone`: the clone points at the same allocation.
#[verifier::external_body]
fn share<T>(rc: &Rc<T>) -> (r: Rc<T>)
    ensures
        r == *rc,
{
    Rc::clone(rc)
}

/// The error of a return channel whose receiving side could not take the value.
#[derive(Debug, Clone, Copy, PartialEq, Eq, Structural)]
pub struct FailedToSendRetval;

impl FailedToSendRetval {
    /// The message of this error, for display.
    pub fn message(&self) -> (r: &'static str)
        ensures
            r@ == "Failed to send return value"@,
    {
        "Failed to send return value"
    }
}

#[verifier::external_type_specification]
#[verifier::external_body]
#[verifier::reject_recursive_types(T)]
pub struct ExRefMut<'b, T: ?Sized + 'b>(RefMut<'b, T>);

/// Relies on `RefCell::try_borrow_mut`: exclusive access to the slot when
/// nothing else borrows it.
#[verifier::external_body]
fn borrow_slot<'a, T>(slot: &'a RefCell<Option<T>>) -> (r: Option<RefMut<'a, Option<T>>>) {
    slot.try_borrow_mut().ok()
}

/// Relies on `RefMut`'s `DerefMut`: stores the value in the borrowed slot.
#[verifier::external_body]
fn fill<T>(guard: &mut RefMut<'_, Option<T>>, value: T) {
    **guard = Some(value);
}

/// A return channel within one thread: a shared slot that the dispatcher fills
/// and the caller reads.
pub struct LocalRetval;

impl Returnval for LocalRetval {
    type SendError = FailedToSendRetval;
}

impl<T> ReturnChannel<T> for LocalRetval {
    type SendHalf = Rc<RefCell<Option<T>>>;
    type RecvHalf = Rc<RefCell<Option<T>>>;
    type RecvResult = Rc<RefCell<Option<T>>>;

    fn create() -> (r: (Rc<RefCell<Option<T>>>, Rc<RefCell<Option<T>>>)) {
        let x = Rc::new(empty_slot());
        (share(&x), x)
    }

    fn send(tx: Rc<RefCell<Option<T>>>, msg: T) -> (r: Result<(), FailedToSendRetval>) {
        match borrow_slot(&tx) {
            Some(mut guard) => {
                fill(&mut guard, msg);
                Ok(())
            },
            None => Err(FailedToSendRetval),
        }
    }

    fn recv(rx: Rc<RefCell<Option<T>>>) -> (r: Rc<RefCell<Option<T>>>) {
        rx
    }
}

/// A return channel over a `tokio` one-shot channel: the caller gets a
/// [`Promise`] of the value.
pub struct TokioRetval;

impl Returnval for TokioRetval {
    type SendError = FailedToSendRetval;
}

impl<T> ReturnChannel<T> for TokioRetval {
    type SendHalf = ::tokio::sync::oneshot::Sender<T>;
    type RecvHalf = Promise<T>;
    type RecvResult = Promise<T>;

    fn create() -> (r: (::tokio::sync::oneshot::Sender<T>, Promise<T>)) {
        Promise::channel()
    }

    fn send(tx: ::tokio::sync::oneshot::Sender<T>, msg: T) -> (r: Result<(), FailedToSendRetval>) {
        if send_oneshot(tx, msg) {
            Ok(())
        } else {
            Err(FailedToSendRetval)
        }
    }

    fn recv(rx: Promise<T>) -> (r: Promise<T>) {
        rx
    }
}

} // verus!
