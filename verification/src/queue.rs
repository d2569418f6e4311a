//! The bounded command queue between the client and its connection: a tokio
//! `mpsc` channel.
//!
//! The queue is transport backpressure. A full queue refuses a command; a
//! command that was not acknowledged is never replayed.
use crate::error::RelayError;
use crate::message::RelayMessage;
use tokio::sync::mpsc;
use vstd::prelude::*;

verus! {

/// How many commands one connection queues before it refuses more.
pub const RELAY_COMMAND_QUEUE_CAPACITY: usize = 64;

/// `tokio::sync::mpsc::Sender`, carried without looking inside.
#[verifier::external_type_specification]
#[verifier::external_body]
#[verifier::reject_recursive_types(T)]
pub struct ExSender<T>(mpsc::Sender<T>);

/// `tokio::sync::mpsc::Receiver`, carried without looking inside.
#[verifier::external_type_specification]
#[verifier::external_body]
#[verifier::reject_recursive_types(T)]
pub struct ExReceiver<T>(mpsc::Receiver<T>);

/// `tokio::task::JoinHandle`, carried without looking inside.
#[verifier::external_type_specification]
#[verifier::external_body]
#[verifier::reject_recursive_types(T)]
pub struct ExJoinHandle<T>(tokio::task::JoinHandle<T>);

/// `tokio::task::JoinError`, which the join handle names.
#[verifier::external_type_specification]
#[verifier::external_body]
pub struct ExJoinError(tokio::task::JoinError);

/// What the queue answered to one command.
#[derive(Debug, Clone, Copy, PartialEq, Eq)]
pub enum QueueReply {
    Queued,
    Full,
    Closed,
}

impl QueueReply {
    /// What the caller of an enqueue is told for this answer.
    pub open spec fn outcome(self) -> Result<(), RelayError> {
        match self {
            QueueReply::Queued => Ok(()),
            QueueReply::Full => Err(RelayError::QueueFull),
            QueueReply::Closed => Err(RelayError::QueueClosed),
        }
    }

    /// What the caller of an enqueue is told for this answer.
    pub fn into_result(self) -> (r: Result<(), RelayError>)
        ensures
            r == self.outcome(),
    {
        match self {
            QueueReply::Queued => Ok(()),
            QueueReply::Full => Err(RelayError::QueueFull),
            QueueReply::Closed => Err(RelayError::QueueClosed),
        }
    }
}

/// That one call made a new, empty channel for at most `capacity` commands, with
/// the halves `tx` and `rx`.
pub uninterp spec fn queue_made(
    capacity: nat,
    tx: mpsc::Sender<RelayMessage>,
    rx: mpsc::Receiver<RelayMessage>,
) -> bool;

/// The commands among `offers` that were queued, in order.
pub open spec fn accepted_of(offers: Seq<(RelayMessage, QueueReply)>) -> Seq<RelayMessage>
    decreases offers.len(),
{
    if offers.len() == 0 {
        Seq::empty()
    } else {
        let earlier = accepted_of(offers.drop_last());
        if offers.last().1 == QueueReply::Queued {
            earlier.push(offers.last().0)
        } else {
            earlier
        }
    }
}

/// What is known of a command queue: its sending half, how many commands it
/// holds at most, every command that was ever offered to it with the answer, and
/// what the connection at the other end had done when the last one was offered:
/// how many commands it had taken, and whether it had stopped listening.
pub struct QueueView {
    pub sender: mpsc::Sender<RelayMessage>,
    pub capacity: nat,
    pub offers: Seq<(RelayMessage, QueueReply)>,
    pub taken: nat,
    pub closed: bool,
}

impl QueueView {
    /// The commands that the queue ever accepted, in order.
    pub open spec fn accepted(self) -> Seq<RelayMessage> {
        accepted_of(self.offers)
    }

    /// The commands that wait in the queue, in order: the accepted ones that the
    /// connection has not taken.
    pub open spec fn waiting(self) -> Seq<RelayMessage> {
        self.accepted().skip(self.taken as int)
    }

    /// What holds of every queue: what was taken was accepted, and no more
    /// commands wait than the queue holds.
    pub open spec fn wf(self) -> bool {
        &&& self.taken <= self.accepted().len()
        &&& self.accepted().len() - self.taken <= self.capacity
    }

    /// Whether the connection may be found there: it takes nothing but accepted
    /// commands, gives none back, and does not listen again.
    pub open spec fn may_find(self, taken: nat, closed: bool) -> bool {
        &&& self.taken <= taken <= self.accepted().len()
        &&& self.closed ==> closed
    }

    /// The queue when the connection has taken so many commands and does or does
    /// not listen any more.
    pub open spec fn found(self, taken: nat, closed: bool) -> QueueView {
        QueueView { taken, closed, ..self }
    }

    /// What the queue answers to one more command: it refuses any once the
    /// connection no longer listens, and otherwise one for which it has no room.
    pub open spec fn reply(self) -> QueueReply {
        if self.closed {
            QueueReply::Closed
        } else if self.accepted().len() - self.taken < self.capacity {
            QueueReply::Queued
        } else {
            QueueReply::Full
        }
    }

    /// The queue after it answered to `msg`.
    pub open spec fn offered(self, msg: RelayMessage) -> QueueView {
        QueueView { offers: self.offers.push((msg, self.reply())), ..self }
    }
}

/// The sending half of a command queue. It is the queue's only one: it is not
/// cloned or handed out, so every command goes through `try_send`.
pub struct CommandQueue {
    tx: mpsc::Sender<RelayMessage>,
    capacity: Ghost<nat>,
    offers: Ghost<Seq<(RelayMessage, QueueReply)>>,
    taken: Ghost<nat>,
    closed: Ghost<bool>,
}

impl View for CommandQueue {
    type V = QueueView;

    closed spec fn view(&self) -> QueueView {
        QueueView {
            sender: self.tx,
            capacity: self.capacity@,
            offers: self.offers@,
            taken: self.taken@,
            closed: self.closed@,
        }
    }
}

impl CommandQueue {
    #[verifier::type_invariant]
    spec fn well_formed(self) -> bool {
        self@.wf()
    }

    /// A new queue for `capacity` commands, which nothing was offered to, and its
    /// receiving half.
    pub fn with_capacity(capacity: usize) -> (r: (CommandQueue, mpsc::Receiver<RelayMessage>))
        requires
            0 < capacity <= usize::MAX / 8,
        ensures
            r.0@.capacity == capacity,
            r.0@.offers.len() == 0,
            r.0@.taken == 0,
            !r.0@.closed,
            queue_made(capacity as nat, r.0@.sender, r.1),
    {
        let (tx, rx) = channel(capacity);
        let queue: CommandQueue = CommandQueue {
            tx,
            capacity: Ghost(capacity as nat),
            offers: Ghost(Seq::empty()),
            taken: Ghost(0),
            closed: Ghost(false),
        };
        (queue, rx)
    }

    /// `tokio::sync::mpsc::Sender::try_send`: hands `msg` to the queue without
    /// waiting. The record of offers grows by this one.
    ///
    /// The channel has `capacity` permits. Each command that it accepts uses one
    /// up, each command that the receiving half takes gives one back, and closing
    /// or dropping that half closes the channel for good. So the answer is fixed by
    /// how far the connection is found to be; how far that is depends on time and
    /// is left open.
    #[verifier::external_body]
    pub(crate) fn try_send(&mut self, msg: RelayMessage) -> (reply: QueueReply)
        ensures
            old(self)@.may_find(final(self)@.taken, final(self)@.closed),
            reply == old(self)@.found(final(self)@.taken, final(self)@.closed).reply(),
            final(self)@ == old(self)@.found(final(self)@.taken, final(self)@.closed).offered(msg),
    {
        match self.tx.try_send(msg) {
            Ok(()) => QueueReply::Queued,
            Err(mpsc::error::TrySendError::Full(_)) => QueueReply::Full,
            Err(mpsc::error::TrySendError::Closed(_)) => QueueReply::Closed,
        }
    }
}

/// `tokio::sync::mpsc::channel`: the two halves of a new, empty channel for
/// `capacity` commands. It panics for a capacity of zero and for one above
/// `usize::MAX >> 3`.
#[verifier::external_body]
fn channel(capacity: usize) -> (r: (mpsc::Sender<RelayMessage>, mpsc::Receiver<RelayMessage>))
    requires
        0 < capacity <= usize::MAX / 8,
    ensures
        queue_made(capacity as nat, r.0, r.1),
{
    mpsc::channel(capacity)
}

} // verus!
