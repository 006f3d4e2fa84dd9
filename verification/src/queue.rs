//! The bounded receive queue that a subscriber handle owns: a FIFO of raw
//! payloads with a fixed capacity, backed by a bounded flume channel whose
//! two ends live together in one owned value, so its contents can be modelled
//! as a sequence.

use vstd::prelude::*;

verus! {

#[verifier::external_type_specification]
#[verifier::external_body]
#[verifier::reject_recursive_types(T)]
pub struct ExSender<T>(flume::Sender<T>);

#[verifier::external_type_specification]
#[verifier::external_body]
#[verifier::reject_recursive_types(T)]
pub struct ExReceiver<T>(flume::Receiver<T>);

/// A bounded FIFO of raw payload byte strings. Both channel ends are owned
/// here and are never handed out, so delivery and draining go through
/// `&mut self` and the queue's contents are exclusive to its owner.
pub struct SampleQueue {
    tx: flume::Sender<Vec<u8>>,
    rx: flume::Receiver<Vec<u8>>,
}

/// The payloads the queue holds, oldest first.
pub uninterp spec fn queue_contents(q: SampleQueue) -> Seq<Seq<u8>>;

/// The capacity the queue was created with.
pub uninterp spec fn queue_bound(q: SampleQueue) -> nat;

impl SampleQueue {
    /// Relies on `flume::bounded`: a freshly created bounded channel holds
    /// nothing and admits at most `capacity` undelivered messages.
    #[verifier::external_body]
    pub fn new(capacity: usize) -> (q: SampleQueue)
        ensures
            queue_contents(q) == Seq::<Seq<u8>>::empty(),
            queue_bound(q) == capacity,
    {
        let (tx, rx) = flume::bounded(capacity);
        SampleQueue { tx, rx }
    }

    /// Deliver one payload, as the transport does when a sample arrives.
    /// Relies on `flume::Sender::try_send` on a channel whose receiver is
    /// alive: it appends the message if the channel is below its bound and
    /// returns it unsent (here: dropped) if the channel is full, without
    /// blocking.
    #[verifier::external_body]
    pub fn deliver(&mut self, payload: Vec<u8>) -> (r: bool)
        ensures
            queue_bound(*final(self)) == queue_bound(*old(self)),
            queue_contents(*old(self)).len() < queue_bound(*old(self)) ==> r
                && queue_contents(*final(self)) == queue_contents(*old(self)).push(payload@),
            queue_contents(*old(self)).len() >= queue_bound(*old(self)) ==> !r
                && queue_contents(*final(self)) == queue_contents(*old(self)),
    {
        self.tx.try_send(payload).is_ok()
    }

    /// Drain the oldest payload, if any. Relies on `flume::Receiver::try_recv`
    /// on a channel whose sender is alive: it returns the oldest message, or
    /// an empty-channel error when there is none, without blocking.
    #[verifier::external_body]
    pub fn try_recv(&mut self) -> (r: Option<Vec<u8>>)
        ensures
            queue_bound(*final(self)) == queue_bound(*old(self)),
            queue_contents(*old(self)).len() == 0 ==> r is None && queue_contents(*final(self))
                == queue_contents(*old(self)),
            queue_contents(*old(self)).len() > 0 ==> match r {
                Some(p) => p@ == queue_contents(*old(self)).first() && queue_contents(
                    *final(self),
                ) == queue_contents(*old(self)).drop_first(),
                None => false,
            },
    {
        match self.rx.try_recv() {
            Ok(p) => Some(p),
            Err(_) => None,
        }
    }
}

} // verus!
