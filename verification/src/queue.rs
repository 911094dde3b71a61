//! The bounded queue on which a worker receives its messages.
//!
//! The queue is tokio's bounded `mpsc` channel. Its sending end is opaque
//! to the verifier; what is assumed of the one call into it is written on
//! the declaration below and is not proved here.

use tokio::sync::mpsc::error::TrySendError;
use tokio::sync::mpsc::Sender;
use vstd::prelude::*;

verus! {

/// `tokio::sync::mpsc::Sender`, the sending end of a worker's queue.
/// Nothing is known of what is inside.
#[verifier::external_type_specification]
#[verifier::external_body]
#[verifier::reject_recursive_types(T)]
pub struct ExQueueSender<T>(Sender<T>);

/// Why a queue did not take a message.
#[derive(Debug, Clone, Copy, PartialEq, Eq, Structural)]
pub enum QueueRefusal {
    /// The queue holds as many messages as it may.
    Full,
    /// The receiving end was closed or dropped: the worker has exited.
    Closed,
}

/// `tokio::sync::mpsc::Sender::try_send` never waits and never panics. A
/// message that the queue does not take comes back unchanged, with the
/// reason. Whether the queue takes it depends on the queue alone, so
/// nothing is claimed of that.
#[verifier::external_body]
pub(crate) fn try_send<T>(sender: &Sender<T>, message: T) -> (outcome: Result<
    (),
    (QueueRefusal, T),
>)
    ensures
        outcome matches Err(refused) ==> refused.1 == message,
{
    match sender.try_send(message) {
        Ok(()) => Ok(()),
        Err(TrySendError::Full(message)) => Err((QueueRefusal::Full, message)),
        Err(TrySendError::Closed(message)) => Err((QueueRefusal::Closed, message)),
    }
}

/// `returned` is what the queue behind `sender` may answer when it is
/// offered `message` without waiting. Which of its possible answers comes
/// is decided by the queue.
pub closed spec fn offered<T>(
    sender: Sender<T>,
    message: T,
    returned: Result<(), (QueueRefusal, T)>,
) -> bool {
    call_ensures(try_send::<T>, (&sender, message), returned)
}

/// Offers `message` to the queue behind `sender` without waiting, and
/// gives the queue's answer.
pub(crate) fn offer<T>(sender: &Sender<T>, message: T) -> (returned: Result<
    (),
    (QueueRefusal, T),
>)
    ensures
        offered(*sender, message, returned),
        returned matches Err(refused) ==> refused.1 == message,
{
    try_send(sender, message)
}

} // verus!
