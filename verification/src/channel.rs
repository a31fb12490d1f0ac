//! The event channel bridge: a conduit for submitting a custom application
//! event from an arbitrary thread into the host's event queue. The sending
//! half of a standard channel serves as the cross-thread submission handle;
//! by its documented contract it is safe for concurrent use, so no lock is
//! wrapped around it.

use vstd::prelude::*;
use std::sync::mpsc::SendError;
use std::sync::mpsc::Sender;

verus! {

/// Declares `std::sync::mpsc::Sender`, the cross-thread submission handle
/// that carries user events into the host event loop's queue.
#[verifier::external_type_specification]
#[verifier::external_body]
#[verifier::reject_recursive_types(T)]
pub struct ExSender<T>(Sender<T>);

/// Declares `std::sync::mpsc::SendError`, the error a send returns when the
/// receiving half of the channel no longer exists, carrying the value that
/// could not be delivered.
#[verifier::external_type_specification]
#[verifier::reject_recursive_types(T)]
pub struct ExSendError<T>(SendError<T>);

/// Relies on `std::sync::mpsc::Sender::send`: it never blocks, it returns
/// `Err` exactly when the receiving half of the channel has been dropped,
/// and the error hands the undelivered value back.
pub assume_specification<T>[ Sender::<T>::send ](sender: &Sender<T>, t: T) -> (r: Result<
    (),
    SendError<T>,
>)
    ensures
        r matches Err(e) ==> e.0 == t,
;

/// Wraps the host's cross-thread event-submission handle.
#[verifier::reject_recursive_types(T)]
pub struct EventProxy<T> {
    sender: Sender<T>,
}

impl<T> EventProxy<T> {
    /// Takes ownership of the submission handle for the lifetime of the
    /// bridge.
    pub fn new(sender: Sender<T>) -> EventProxy<T> {
        EventProxy { sender }
    }

    /// Attempts to enqueue `event` into the host event loop's queue, and
    /// reports whether the queue still existed. A `false` result means the
    /// host event loop has already been torn down: an expected race, not an
    /// error, and the event is simply dropped.
    pub fn submit(&self, event: T) -> (delivered: bool) {
        match self.sender.send(event) {
            Ok(()) => true,
            Err(_) => false,
        }
    }
}

} // verus!
