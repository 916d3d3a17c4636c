//! The one-shot channel of `futures_channel` that an answer is sent over,
//! and the receipt of a send.

use futures_channel::oneshot::{Receiver, Sender};
use vstd::prelude::*;

verus! {

/// The sending half of a one-shot channel.
#[verifier::external_type_specification]
#[verifier::external_body]
#[verifier::reject_recursive_types(T)]
pub struct ExOneshotSender<T>(Sender<T>);

/// The receiving half of a one-shot channel.
#[verifier::external_type_specification]
#[verifier::external_body]
#[verifier::reject_recursive_types(T)]
pub struct ExOneshotReceiver<T>(Receiver<T>);

/// `futures_channel::oneshot::channel`: a new channel; nothing is stated of
/// the two halves.
pub assume_specification<T>[ futures_channel::oneshot::channel::<T> ]() -> (Sender<T>, Receiver<T>);

/// What became of a value sent over a channel: the value, and whether the
/// channel accepted it. Only a send gives one.
#[verifier::reject_recursive_types(T)]
pub struct SendReceipt<T> {
    sent: Ghost<T>,
    accepted: bool,
}

impl<T> SendReceipt<T> {
    /// The value that was sent.
    pub closed spec fn sent(&self) -> T {
        self.sent@
    }

    /// Whether the channel accepted the value.
    pub closed spec fn accepted(&self) -> bool {
        self.accepted
    }

    /// Whether the channel accepted the value.
    pub fn is_accepted(&self) -> (r: bool)
        ensures
            r == self.accepted(),
    {
        self.accepted
    }
}

/// Sends `data` with `Sender::send`, which gives `Ok` when the channel takes
/// the value and gives it back as the error when the receiving half is gone;
/// the receipt records `data` and whether the result was `Ok`.
///
/// Trusted: the contract says that the receipt is of `data`; whether the
/// channel accepts it depends on the receiving half, and is not stated.
#[verifier::external_body]
pub(crate) fn send_on<T>(sender: Sender<T>, data: T) -> (r: SendReceipt<T>)
    ensures
        r.sent() == data,
{
    let sent = Ghost(data);
    let accepted = sender.send(data).is_ok();
    SendReceipt { sent, accepted }
}

} // verus!
