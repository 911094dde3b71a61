//! The one-shot channel on which a caller's reply travels.
//!
//! The channel is tokio's `oneshot`. Its two ends and the caller id are
//! opaque to the verifier; what is assumed of the calls into tokio is
//! written on the declarations below and is not proved here.

use tokio::sync::oneshot::error::RecvError;
use tokio::sync::oneshot::{Receiver, Sender};
use uuid::Uuid;
use vstd::prelude::*;

verus! {

/// `tokio::sync::oneshot::Sender`, the sending end of a reply channel.
/// Nothing is known of what is inside.
#[verifier::external_type_specification]
#[verifier::external_body]
#[verifier::reject_recursive_types(T)]
pub struct ExSender<T>(Sender<T>);

/// `tokio::sync::oneshot::Receiver`, the end a caller awaits.
/// Nothing is known of what is inside.
#[verifier::external_type_specification]
#[verifier::external_body]
#[verifier::reject_recursive_types(T)]
pub struct ExReceiver<T>(Receiver<T>);

/// `tokio::sync::oneshot::error::RecvError`, what a receiver yields when its
/// sender was dropped without sending.
#[verifier::external_type_specification]
#[verifier::external_body]
pub struct ExRecvError(RecvError);

/// `uuid::Uuid`, the identifier of a caller or a worker. Only carried and
/// compared in contracts, never inspected.
#[verifier::external_type_specification]
#[verifier::external_body]
pub struct ExUuid(Uuid);

/// `tokio::sync::oneshot::channel` makes a fresh pair of ends. Nothing is
/// claimed of them.
pub assume_specification<T>[ tokio::sync::oneshot::channel::<T> ]() -> (ends: (
    Sender<T>,
    Receiver<T>,
));

/// `tokio::sync::oneshot::Sender::send` never waits and never panics. When
/// the receiver has gone it hands the value back unchanged in `Err`. Whether
/// it succeeds depends on the receiver alone, so nothing is claimed of that.
pub assume_specification<T>[ Sender::<T>::send ](sender: Sender<T>, t: T) -> (outcome: Result<
    (),
    T,
>)
    ensures
        outcome matches Err(returned) ==> returned == t,
;

/// The failure a caller sees. Callers do not learn more than its message.
#[derive(Debug, Clone, Copy, PartialEq, Eq, Structural)]
pub enum RequestError {
    /// The backend call failed, or its response did not have one item per
    /// submitted data item.
    ApiCallFailed,
    /// The worker for the request's key could not take the request.
    WorkerUnavailable,
    /// The request was dropped before anyone replied to it.
    RequestAbandoned,
}

impl RequestError {
    /// The text of [`RequestError::message`].
    pub open spec fn text(self) -> Seq<char> {
        match self {
            RequestError::ApiCallFailed => "API call failed. Please try again"@,
            RequestError::WorkerUnavailable => "could not process request, please try again"@,
            RequestError::RequestAbandoned => "request abandoned"@,
        }
    }

    /// The message shown to the caller.
    pub fn message(&self) -> (text: String)
        ensures
            text@ == self.text(),
    {
        match self {
            RequestError::ApiCallFailed => "API call failed. Please try again".to_owned(),
            RequestError::WorkerUnavailable => {
                "could not process request, please try again".to_owned()
            },
            RequestError::RequestAbandoned => "request abandoned".to_owned(),
        }
    }
}

/// What a caller receives: its slice of the response, or a failure.
pub type Reply<O> = Result<Vec<O>, RequestError>;

/// What a caller holds when its wait is over: the reply that was sent, or
/// the failure of an abandoned request when the sending end was dropped
/// without a reply.
pub fn received<O>(awaited: Result<Reply<O>, RecvError>) -> (reply: Reply<O>)
    ensures
        awaited matches Ok(sent) ==> reply == sent,
        awaited is Err ==> reply == Err::<Vec<O>, RequestError>(RequestError::RequestAbandoned),
{
    match awaited {
        Ok(sent) => sent,
        Err(_) => Err(RequestError::RequestAbandoned),
    }
}

/// The reply could not be handed over because the caller stopped waiting.
#[derive(Debug, Clone, Copy)]
pub struct DispatchAbandoned {
    pub client_id: Uuid,
}

/// What became of one reply: handed over, or abandoned by its caller.
pub type Handover = Result<(), DispatchAbandoned>;

/// An abandoned reply is reported under the id of the caller it was for.
pub open spec fn concerns(outcome: Handover, client_id: Uuid) -> bool {
    outcome matches Err(abandoned) ==> abandoned.client_id == client_id
}

/// `sender` and `receiver` are the two ends of one channel: a pair that
/// tokio's `channel` may return.
pub open spec fn paired<T>(sender: Sender<T>, receiver: Receiver<T>) -> bool {
    call_ensures(tokio::sync::oneshot::channel::<T>, (), (sender, receiver))
}

/// `returned` is what tokio's `send` may give back when `value` is sent
/// through `sender`. Which of its possible results comes back is decided
/// by the receiving end.
pub open spec fn sent<T>(sender: Sender<T>, value: T, returned: Result<(), T>) -> bool {
    call_ensures(Sender::<T>::send, (sender, value), returned)
}

/// What a send means for the caller `client_id`: the reply was handed
/// over when the channel took it, and abandoned when it came back.
pub open spec fn handover_of<T>(client_id: Uuid, returned: Result<(), T>) -> Handover {
    match returned {
        Ok(_) => Ok(()),
        Err(_) => Err(DispatchAbandoned { client_id }),
    }
}

/// What became of the reply for the caller `client_id`, given what the
/// channel returned for it. A value that came back is dropped.
pub fn handover<T>(client_id: Uuid, returned: Result<(), T>) -> (outcome: Handover)
    ensures
        outcome == handover_of(client_id, returned),
{
    match returned {
        Ok(_) => Ok(()),
        Err(_) => Err(DispatchAbandoned { client_id }),
    }
}

} // verus!
