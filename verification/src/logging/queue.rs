//! Queue between loggers and the task that sends log messages.

use tokio::sync::mpsc::error::TrySendError;
use tokio::sync::mpsc::{Receiver, Sender};
use vstd::prelude::*;

use crate::logging::batch::HttpLog;

verus! {

/// Sender end of a bounded queue.
#[verifier::external_type_specification]
#[verifier::external_body]
#[verifier::reject_recursive_types(T)]
pub struct ExSender<T>(Sender<T>);

/// Receiver end of a bounded queue.
#[verifier::external_type_specification]
#[verifier::external_body]
#[verifier::reject_recursive_types(T)]
pub struct ExReceiver<T>(Receiver<T>);

/// Reason why an item was not put into the queue.
pub enum QueueError {
    /// The queue has no room for the item.
    Full(HttpLog),
    /// The other end of the queue is closed.
    Closed(HttpLog),
}

impl QueueError {
    /// Item that was not put into the queue.
    pub open spec fn item(self) -> HttpLog {
        match self {
            QueueError::Full(item) => item,
            QueueError::Closed(item) => item,
        }
    }
}

/// Item that was offered to a queue, and what the queue has answered.
pub struct Offer {
    /// Item.
    pub item: HttpLog,
    /// Answer.
    pub answer: Result<(), QueueError>,
}

/// Sender end of the queue, together with everything that it was used for.
pub struct LogSender {
    /// Sender end of the queue.
    tx: Sender<HttpLog>,
    /// Offers made so far.
    offers: Ghost<Seq<Offer>>,
}

/// `tokio::sync::mpsc::channel` makes a queue that holds up to `capacity` items, and hands out
/// both of its ends. Nothing is claimed of an end by itself. It panics on an empty capacity, and
/// on one that is greater than the largest number of permits of a semaphore.
#[verifier::external_body]
fn channel(capacity: usize) -> (Sender<HttpLog>, Receiver<HttpLog>)
    requires
        0 < capacity <= usize::MAX / 8,
{
    tokio::sync::mpsc::channel(capacity)
}

/// These are the ends of one queue, which was made to hold up to `capacity` items.
pub closed spec fn ends_of_queue(
    tx: Sender<HttpLog>,
    rx: Receiver<HttpLog>,
    capacity: usize,
) -> bool {
    call_ensures(channel, (capacity,), (tx, rx))
}

impl LogSender {
    /// Sender end of the queue.
    pub closed spec fn tx(self) -> Sender<HttpLog> {
        self.tx
    }

    /// Offers made so far, oldest first.
    pub closed spec fn offers(self) -> Seq<Offer> {
        self.offers@
    }

    /// Make a queue.
    pub fn open(capacity: usize) -> (res: (Self, Receiver<HttpLog>))
        requires
            0 < capacity <= usize::MAX / 8,
        ensures
            ends_of_queue(res.0.tx(), res.1, capacity),
            res.0.offers() == Seq::<Offer>::empty(),
    {
        let (tx, rx) = channel(capacity);
        (LogSender { tx, offers: Ghost(Seq::empty()) }, rx)
    }

    /// `Sender::try_send` either puts the item into the queue, or hands it back. Which of those
    /// happens depends on the other end of the queue, so nothing is claimed of that. There is one
    /// more offer afterwards.
    #[verifier::external_body]
    pub(crate) fn offer(&mut self, item: HttpLog) -> (res: Result<(), QueueError>)
        ensures
            final(self).tx() == old(self).tx(),
            final(self).offers() == old(self).offers().push((Offer { item, answer: res })),
            res matches Err(err) ==> err.item() == item,
    {
        match self.tx.try_send(item) {
            Ok(()) => Ok(()),
            Err(TrySendError::Full(item)) => Err(QueueError::Full(item)),
            Err(TrySendError::Closed(item)) => Err(QueueError::Closed(item)),
        }
    }
}

/// Ends of one queue are those of a channel with exactly that capacity.
proof fn lemma_ends_of_queue(
    tx: Sender<HttpLog>,
    rx: Receiver<HttpLog>,
    capacity: usize,
)
    requires
        ends_of_queue(tx, rx, capacity),
    ensures
        call_ensures(channel, (capacity,), (tx, rx)),
{
}

/// An item that was not put into the queue is handed back, whatever the reason.
pub proof fn lemma_handed_back(item: HttpLog)
    ensures
        QueueError::Full(item).item() == item,
        QueueError::Closed(item).item() == item,
{
}

} // verus!
