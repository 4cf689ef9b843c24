use vstd::prelude::*;
use crate::response::CResult;

verus! {

/// The sending half of an async_channel bounded channel, carried as an opaque
/// value: the queue of dispatched requests.
#[verifier::external_type_specification]
#[verifier::external_body]
#[verifier::reject_recursive_types(T)]
pub struct ExSender<T>(async_channel::Sender<T>);

/// Why the queue did not take a request.
#[derive(Debug, Clone, Copy, PartialEq, Eq, Structural)]
pub enum QueueRejection {
    /// The queue holds as many requests as it can.
    Full,
    /// The queue has been closed.
    Closed,
}

/// Relies on async_channel::Sender::try_send, which never blocks: it takes
/// the item, or reports a full or a closed channel. Which of these happens
/// depends on the other users of the channel.
#[verifier::external_body]
fn try_enqueue<T>(queue: &async_channel::Sender<T>, item: T) -> (r: Result<(), QueueRejection>) {
    match queue.try_send(item) {
        Ok(()) => Ok(()),
        Err(async_channel::TrySendError::Full(_)) => Err(QueueRejection::Full),
        Err(async_channel::TrySendError::Closed(_)) => Err(QueueRejection::Closed),
    }
}

/// The status reported to a submitter: a full queue asks it to back off, a
/// closed one is an error.
pub fn submission_status(outcome: Result<(), QueueRejection>) -> (r: CResult)
    ensures
        r == match outcome {
            Ok(()) => CResult::Success,
            Err(QueueRejection::Full) => CResult::Backoff,
            Err(QueueRejection::Closed) => CResult::Error,
        },
{
    match outcome {
        Ok(()) => CResult::Success,
        Err(QueueRejection::Full) => CResult::Backoff,
        Err(QueueRejection::Closed) => CResult::Error,
    }
}

/// Submits `item` to the dispatch queue without blocking. Without a queue
/// (the engine has not been started) the submission is an error.
pub fn submit<T>(queue: Option<&async_channel::Sender<T>>, item: T) -> (r: CResult)
    ensures
        queue is None ==> r == CResult::Error,
        r == CResult::Success || r == CResult::Backoff || r == CResult::Error,
{
    match queue {
        Some(q) => submission_status(try_enqueue(q, item)),
        None => CResult::Error,
    }
}

} // verus!
