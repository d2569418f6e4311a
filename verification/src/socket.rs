//! One open socket: what the read half does with what it receives, and what the
//! write half sends next.
//!
//! Both halves make progress independently; the end of either ends the socket.
use crate::error::RelayError;
use crate::lifecycle::{ConnectionLifecycle, LifecycleView};
use crate::message::{RelayEvent, RelayMessage};
use vstd::prelude::*;

verus! {

/// The pause between two heartbeats, in seconds.
pub const HEARTBEAT_PERIOD_SECS: u64 = 30;

/// How long the read half waits for anything inbound, in seconds. Two missed
/// heartbeat acknowledgements plus scheduling and network slack indicate a
/// half-open socket that should be replaced even when the operating system has
/// not surfaced a read error yet.
pub const RELAY_INBOUND_IDLE_TIMEOUT_SECS: u64 = 75;

/// Deadline for one write, in seconds.
pub const RELAY_WRITE_TIMEOUT_SECS: u64 = 15;

/// The largest message, frame and write buffer of the socket, in bytes.
pub const RELAY_MAX_MESSAGE_BYTES: usize = 64 * 1024 * 1024;

/// What the read half found.
#[derive(Debug)]
pub enum InboundPoll {
    /// Nothing came before the idle deadline.
    TimedOut,
    /// The stream ended.
    Ended,
    /// The stream failed.
    Failed,
    /// The relay closes the socket.
    Close,
    /// A text frame, and the message in it if it holds one.
    Text { message: Option<RelayMessage> },
    /// A frame of another kind.
    Other,
}

/// What the read half does next.
#[derive(Debug)]
pub enum InboundAction {
    /// Emit the event and read on.
    Deliver { event: RelayEvent },
    /// Read on.
    Continue,
    /// Give the socket up.
    Stop,
}

/// What the command queue offered.
#[derive(Debug)]
pub enum QueuePoll {
    /// No command is waiting.
    Pending,
    Command { message: RelayMessage },
    /// No command will come any more.
    Closed,
}

/// What the write half does next.
#[derive(Debug)]
pub enum OutboundTurn {
    Send { message: RelayMessage },
    /// Ask the command queue.
    AskQueue,
    /// Wait until a heartbeat is due or the queue has something to offer.
    Wait,
    /// Give the socket up.
    Finish,
}

/// What the write half does after a write.
#[derive(Debug, Clone, Copy, PartialEq, Eq, Structural)]
pub enum WriteAction {
    /// Write on.
    Continue,
    /// Give the socket up.
    Stop,
}

impl InboundPoll {
    /// Whether the socket is given up.
    pub open spec fn ends_socket(self) -> bool {
        self is TimedOut || self is Ended || self is Failed || self is Close
    }

    /// What the read half of the run `generation` does with what it found.
    pub open spec fn action(self, owner: LifecycleView, generation: u64) -> InboundAction {
        if self.ends_socket() {
            InboundAction::Stop
        } else {
            match self {
                InboundPoll::Text { message: Some(msg) } => match owner.dispatched(
                    generation,
                    msg,
                ) {
                    Some(event) => InboundAction::Deliver { event },
                    None => InboundAction::Continue,
                },
                _ => InboundAction::Continue,
            }
        }
    }
}

impl QueuePoll {
    /// What the write half does with what the queue offered.
    pub open spec fn turn(self) -> OutboundTurn {
        match self {
            QueuePoll::Pending => OutboundTurn::Wait,
            QueuePoll::Command { message } => OutboundTurn::Send { message },
            QueuePoll::Closed => OutboundTurn::Finish,
        }
    }
}

/// What the write half does next; `offered` is what the queue offered in this
/// turn, if it was asked.
pub open spec fn outbound_turn(heartbeat_due: bool, offered: Option<QueuePoll>) -> OutboundTurn {
    match offered {
        Some(poll) => poll.turn(),
        None => if heartbeat_due {
            OutboundTurn::Send { message: RelayMessage::Heartbeat }
        } else {
            OutboundTurn::AskQueue
        },
    }
}

/// Decides what the read half of the run `generation` does next.
pub fn read_inbound(owner: &ConnectionLifecycle, generation: u64, poll: InboundPoll) -> (r:
    InboundAction)
    ensures
        r == poll.action(owner@, generation),
{
    match poll {
        InboundPoll::TimedOut | InboundPoll::Ended | InboundPoll::Failed | InboundPoll::Close =>
            InboundAction::Stop,
        InboundPoll::Text { message: Some(msg) } => match owner.dispatch(generation, msg) {
            Some(event) => InboundAction::Deliver { event },
            None => InboundAction::Continue,
        },
        _ => InboundAction::Continue,
    }
}

/// Decides what the write half does next; `offered` is what the queue offered in
/// this turn, if it was asked. The queue is asked only while no heartbeat is
/// due: a continuously ready queue must not starve the keepalive that preserves
/// device presence and inbound health. A command that was taken is always sent.
pub fn next_relay_outbound(heartbeat_due: bool, offered: Option<QueuePoll>) -> (r: OutboundTurn)
    ensures
        r == outbound_turn(heartbeat_due, offered),
{
    match offered {
        Some(QueuePoll::Pending) => OutboundTurn::Wait,
        Some(QueuePoll::Command { message }) => OutboundTurn::Send { message },
        Some(QueuePoll::Closed) => OutboundTurn::Finish,
        None => {
            if heartbeat_due {
                OutboundTurn::Send { message: RelayMessage::Heartbeat }
            } else {
                OutboundTurn::AskQueue
            }
        },
    }
}

/// The result of an attempt that had a deadline: its own result if it came in
/// time, and `late` if it did not.
fn within_deadline<T>(attempt: Option<Result<T, RelayError>>, late: RelayError) -> (r: Result<
    T,
    RelayError,
>)
    ensures
        r == match attempt {
            Some(result) => result,
            None => Err(late),
        },
{
    match attempt {
        Some(result) => result,
        None => Err(late),
    }
}

/// The result of a dial; `attempt` is what came before the deadline.
pub fn dial_result<T>(ws_url: &str, attempt: Option<Result<T, RelayError>>) -> (r: Result<
    T,
    RelayError,
>)
    ensures
        match attempt {
            Some(result) => r == result,
            None => r matches Err(RelayError::DialTimedOut { ws_url: url }) && url@ == ws_url@,
        },
{
    within_deadline(attempt, RelayError::DialTimedOut { ws_url: ws_url.to_string() })
}

/// The error of a dial that failed in time.
pub fn dial_failure(ws_url: &str, reason: &str) -> (r: RelayError)
    ensures
        r matches RelayError::Dial { ws_url: url, reason: why } && url@ == ws_url@ && why@
            == reason@,
{
    RelayError::Dial { ws_url: ws_url.to_string(), reason: reason.to_string() }
}

/// The result of a WebSocket write; `attempt` is what came before the deadline.
pub open spec fn write_outcome(attempt: Option<Result<(), RelayError>>) -> Result<(), RelayError> {
    match attempt {
        Some(result) => result,
        None => Err(RelayError::WriteTimedOut),
    }
}

/// What the write half does after a write with this result.
pub open spec fn write_action(written: Result<(), RelayError>) -> WriteAction {
    match written {
        Ok(_) => WriteAction::Continue,
        Err(_) => WriteAction::Stop,
    }
}

/// The result of a WebSocket write; `attempt` is what came before the deadline.
pub fn write_result(attempt: Option<Result<(), RelayError>>) -> (r: Result<(), RelayError>)
    ensures
        r == write_outcome(attempt),
{
    within_deadline(attempt, RelayError::WriteTimedOut)
}

/// Decides what the write half does after a write: a failed or late one gives the
/// socket up.
pub fn after_write(written: &Result<(), RelayError>) -> (r: WriteAction)
    ensures
        r == write_action(*written),
{
    match written {
        Ok(_) => WriteAction::Continue,
        Err(_) => WriteAction::Stop,
    }
}

/// A TLS connector needs at least one trusted root certificate.
pub fn check_trusted_roots(roots: usize) -> (r: Result<(), RelayError>)
    ensures
        r == if roots == 0 {
            Err::<(), RelayError>(RelayError::NoTrustedRoots)
        } else {
            Ok(())
        },
{
    if roots == 0 {
        Err(RelayError::NoTrustedRoots)
    } else {
        Ok(())
    }
}

} // verus!
