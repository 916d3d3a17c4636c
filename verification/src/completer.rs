//! Bookkeeping of a prepared completer: the Dart port that the result of one
//! async call goes to, the message that carries it, and the rule that a
//! call is answered exactly once.

use vstd::prelude::*;

verus! {

/// An id telling Dart which of its futures a message completes.
#[derive(Clone, Copy, Debug)]
pub struct CompleterId(i64);

impl CompleterId {
    /// The id with this value.
    pub fn new(id: i64) -> (r: Self)
        ensures
            r.value_spec() == id,
    {
        CompleterId(id)
    }

    /// The value of the id.
    pub closed spec fn value_spec(self) -> i64 {
        self.0
    }

    /// The value of the id.
    pub fn value(&self) -> (r: i64)
        ensures
            r == self.value_spec(),
    {
        self.0
    }
}

/// Setting up the completer failed.
#[derive(Clone, Copy, PartialEq, Eq, Debug)]
pub struct CompleterSetupFailed;

/// Tag that starts every message, as a fail safe; it is a number that an
/// `f64` can not represent.
pub const MAGIC_TAG: i64 = -6_504_203_682_518_908_873i64;

/// The reason sent when a call ends without a result.
pub const CANCELED_REASON: &'static str = "future canceled in rust";

/// The message that completes a call on the Dart side.
#[derive(PartialEq, Eq, Debug)]
pub enum CompletionMessage {
    /// Typed `Int64` data `[MAGIC_TAG, completer id, result handle]`.
    Completed { data: Vec<i64> },
    /// An array of the tag, the completer id and the reason, sent when the
    /// call was dropped without a result.
    Canceled { tag: i64, completer_id: i64, reason: String },
}

/// Model of a message.
pub ghost enum MessageModel {
    Completed { data: Seq<i64> },
    Canceled { tag: i64, completer_id: i64, reason: Seq<char> },
}

impl View for CompletionMessage {
    type V = MessageModel;

    open spec fn view(&self) -> MessageModel {
        match self {
            CompletionMessage::Completed { data } => MessageModel::Completed { data: data@ },
            CompletionMessage::Canceled { tag, completer_id, reason } => MessageModel::Canceled {
                tag: *tag,
                completer_id: *completer_id,
                reason: reason@,
            },
        }
    }
}

/// The message for a call with this completer id: with a result handle,
/// the typed data carrying it; without one, the cancellation notice.
pub open spec fn message_for(completer_id: i64, handle: Option<i64>) -> MessageModel {
    match handle {
        Some(h) => MessageModel::Completed { data: seq![MAGIC_TAG, completer_id, h] },
        None => MessageModel::Canceled {
            tag: MAGIC_TAG,
            completer_id: completer_id,
            reason: CANCELED_REASON@,
        },
    }
}

/// The message for a call with this completer id.
pub fn completion_message(completer_id: i64, handle: Option<i64>) -> (r: CompletionMessage)
    ensures
        r@ == message_for(completer_id, handle),
{
    match handle {
        Some(h) => {
            let data = vec![MAGIC_TAG, completer_id, h];
            assert(data@ =~= seq![MAGIC_TAG, completer_id, h]);
            CompletionMessage::Completed { data }
        },
        None => CompletionMessage::Canceled {
            tag: MAGIC_TAG,
            completer_id,
            reason: String::from_str(CANCELED_REASON),
        },
    }
}

impl DeepView for CompletionMessage {
    type V = MessageModel;

    open spec fn deep_view(&self) -> MessageModel {
        self@
    }
}

/// Model of a prepared completer: the port the answer still has to go to,
/// if any, and the completer id.
pub ghost struct CompleterModel {
    pub pending: Option<i64>,
    pub id: i64,
}

/// Answering a call: the first time, the message goes to the pending port
/// and nothing is pending afterwards; later, nothing is sent.
pub open spec fn answered(c: CompleterModel, handle: Option<i64>) -> (
    CompleterModel,
    Option<(i64, MessageModel)>,
) {
    match c.pending {
        Some(port) => (
            CompleterModel { pending: None, id: c.id },
            Some((port, message_for(c.id, handle))),
        ),
        None => (c, None),
    }
}

/// A call is answered at most once: after one answer, another sends
/// nothing, whether it carries a result or not.
pub proof fn lemma_answered_at_most_once(c: CompleterModel, first: Option<i64>, second: Option<i64>)
    ensures
        answered(answered(c, first).0, second).1 is None,
        answered(answered(c, first).0, second).0 == answered(c, first).0,
{
}

/// The port a prepared call answers to, until it has answered.
pub struct PreparedCompleter {
    send_port: Option<i64>,
    completer_id: i64,
}

impl View for PreparedCompleter {
    type V = CompleterModel;

    closed spec fn view(&self) -> CompleterModel {
        CompleterModel { pending: self.send_port, id: self.completer_id }
    }
}

impl PreparedCompleter {
    /// Prepares the answer of a call to port `port_id`; the port id `0` is
    /// not a port, and is refused.
    pub fn new(port_id: i64, completer_id: i64) -> (r: Result<Self, CompleterSetupFailed>)
        ensures
            port_id == 0 ==> r is Err,
            port_id != 0 ==> (r matches Ok(c) && c@ == CompleterModel {
                pending: Some(port_id),
                id: completer_id,
            }),
    {
        if port_id == 0 {
            Err(CompleterSetupFailed)
        } else {
            Ok(PreparedCompleter { send_port: Some(port_id), completer_id })
        }
    }

    /// The completer id of the call.
    pub fn completer_id(&self) -> (r: i64)
        ensures
            r == self@.id,
    {
        self.completer_id
    }

    /// Whether the answer still has to be sent.
    pub fn is_pending(&self) -> (r: bool)
        ensures
            r == self@.pending is Some,
    {
        self.send_port.is_some()
    }

    /// The message to post and the port to post it to, the first time;
    /// nothing once the answer was sent. A result handle gives the typed
    /// data, no handle the cancellation notice.
    pub fn send_result_if_not_already_done(&mut self, handle: Option<i64>) -> (r: Option<
        (i64, CompletionMessage),
    >)
        ensures
            (final(self)@, r.deep_view()) == answered(old(self)@, handle),
    {
        match self.send_port.take() {
            Some(port) => Some((port, completion_message(self.completer_id, handle))),
            None => None,
        }
    }
}

} // verus!
