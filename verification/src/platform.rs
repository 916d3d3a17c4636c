//! The completer through which foreign code answers an async call of Rust:
//! a one-shot channel whose sending half is used at most once.

use futures_channel::oneshot::{Receiver, Sender};
use crate::channel::{send_on, SendReceipt};
use crate::opaque::OpaqueData;
use vstd::prelude::*;

verus! {

/// The error of a receiving half whose sender was dropped (the output of
/// awaiting a `Receiver`).
#[verifier::external_type_specification]
#[verifier::external_body]
pub struct ExOneshotCanceled(futures_channel::oneshot::Canceled);

/// Completes an async call from foreign code, at most once: the answer is
/// handed to the sending half of the channel whose receiving half the
/// matching `AwaitExtern` holds.
#[verifier::reject_recursive_types(T)]
pub struct ExternCompleter<T> {
    sender: Option<Sender<T>>,
    receipt: Option<SendReceipt<T>>,
}

/// The receiving side of an `ExternCompleter`.
#[verifier::reject_recursive_types(T)]
pub struct AwaitExtern<T> {
    receiver: Receiver<T>,
}

impl<T> AwaitExtern<T> {
    /// The receiving half of the channel that this side awaits.
    pub closed spec fn receiver(&self) -> Receiver<T> {
        self.receiver
    }

    /// The receiving half of the channel.
    pub fn into_receiver(self) -> (r: Receiver<T>)
        ensures
            r == self.receiver(),
    {
        self.receiver
    }
}

impl<T> ExternCompleter<T> {
    /// Whether the completer was already used.
    pub closed spec fn is_spent(&self) -> bool {
        self.sender is None
    }

    /// The receipt of the send of the answer, once the completer was used.
    pub closed spec fn receipt(&self) -> Option<SendReceipt<T>> {
        self.receipt
    }

    /// A completer and the side that awaits its answer.
    pub fn new() -> (r: (Box<Self>, AwaitExtern<T>))
        ensures
            !r.0.is_spent(),
            r.0.receipt() is None,
    {
        let (sender, receiver) = futures_channel::oneshot::channel();
        let completer = Box::new(ExternCompleter { sender: Some(sender), receipt: None });
        (completer, AwaitExtern { receiver })
    }

    /// Sends the answer; afterwards the completer is spent. An unused
    /// completer sends `data` over its channel (`Sender::send`) and succeeds
    /// exactly when the channel accepted it (the awaiting side is still
    /// there); a used one fails and sends nothing.
    pub fn complete(&mut self, data: T) -> (r: Result<(), ()>)
        ensures
            final(self).is_spent(),
            old(self).is_spent() ==> r is Err && final(self).receipt() == old(self).receipt(),
            !old(self).is_spent() ==> (final(self).receipt() matches Some(rc) && rc.sent() == data
                && (r is Ok <==> rc.accepted())),
    {
        match self.sender.take() {
            Some(channel) => {
                let receipt = send_on(channel, data);
                let accepted = receipt.is_accepted();
                self.receipt = Some(receipt);
                if accepted {
                    Ok(())
                } else {
                    Err(())
                }
            },
            None => Err(()),
        }
    }
}

/// Completes the async call behind `extern_callback` with `data` and reports
/// the status to foreign code: the status of `complete`, 0 when the answer
/// was sent and accepted, -1 when it was not (the completer was already
/// used, or nobody awaits the answer).
pub fn extern_completes_async_call<T>(extern_callback: &mut ExternCompleter<T>, data: T) -> (r: isize)
    ensures
        r == 0 || r == -1,
        final(extern_callback).is_spent(),
        old(extern_callback).is_spent() ==> r == -1 && final(extern_callback).receipt() == old(
            extern_callback,
        ).receipt(),
        !old(extern_callback).is_spent() ==> (final(extern_callback).receipt() matches Some(rc)
            && rc.sent() == data && r == (if rc.accepted() { 0isize } else { -1isize })),
{
    let res = extern_callback.complete(data);
    completion_status(res)
}

/// An error of the platform side of an async call.
#[derive(Clone, Copy, PartialEq, Eq, Debug)]
pub struct PlatformError {}

/// The message that carries the answer of an async call to foreign code.
pub struct CompletionMsg<D> {
    /// The completer the answer is for.
    pub completer_id: u64,
    /// The answer.
    pub data: OpaqueData<D>,
}

/// The status code reported to foreign code: 0 when the answer was sent,
/// -1 otherwise.
pub fn completion_status(res: Result<(), ()>) -> (r: isize)
    ensures
        r == (if res is Ok { 0isize } else { -1isize }),
{
    match res {
        Ok(()) => 0,
        Err(()) => -1,
    }
}

} // verus!
