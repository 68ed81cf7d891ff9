use vstd::prelude::*;

use crate::errors::StoreError;

verus! {

#[verifier::external_type_specification]
#[verifier::external_body]
#[verifier::reject_recursive_types(T)]
pub struct ExSender<T>(std::sync::mpsc::Sender<T>);

/// Relays a host-issued session cookie from the host's own thread to a
/// waiting application-side consumer over a channel. The cookie is an
/// opaque numeric capability, consumed exactly once per dispatch and
/// never persisted here.
pub struct EditSession {
    sender: std::sync::mpsc::Sender<u32>,
}

impl EditSession {
    /// The sending half this session relays every cookie over.
    pub closed spec fn sender(&self) -> std::sync::mpsc::Sender<u32> {
        self.sender
    }
}

/// Relies on std::sync::mpsc::Sender::send: the value reaches the
/// receiving half's queue and the call returns Ok, or the receiver has
/// disconnected and the value comes back inside Err.
#[verifier::external_body]
fn send_cookie(sender: &std::sync::mpsc::Sender<u32>, cookie: u32) -> (r: Result<(), ()>) {
    match sender.send(cookie) {
        Ok(()) => Ok(()),
        Err(_) => Err(()),
    }
}

/// What a dispatch returns once the channel has answered: success when
/// the send went through, and `DeliveryFailed` — never a silent drop —
/// when no consumer was there to take the cookie.
pub fn delivery_outcome(sent: Result<(), ()>) -> (r: Result<(), StoreError>)
    ensures
        sent is Ok ==> r is Ok,
        sent is Err ==> (r matches Err(e) && e == StoreError::DeliveryFailed),
{
    match sent {
        Ok(()) => Ok(()),
        Err(()) => Err(StoreError::DeliveryFailed),
    }
}

impl EditSession {
    /// A session bridge that will hand cookies to `sender`'s receiving
    /// half: the given sender, and no other, is the one every dispatch
    /// goes over.
    pub fn new(sender: std::sync::mpsc::Sender<u32>) -> (session: EditSession)
        ensures
            session.sender() == sender,
    {
        EditSession { sender }
    }

    /// Forwards one session cookie to the application-side consumer.
    /// Whether the send goes through depends on whether the consumer
    /// still exists, so no outcome is promised; but a failed handoff is
    /// always reported as `DeliveryFailed`, never swallowed.
    pub fn dispatch(&self, cookie: u32) -> (r: Result<(), StoreError>)
        ensures
            r matches Err(e) ==> e == StoreError::DeliveryFailed,
    {
        let sent = send_cookie(&self.sender, cookie);
        delivery_outcome(sent)
    }
}

} // verus!
