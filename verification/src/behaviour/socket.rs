//! What the two halves of an open socket do.
use crate::error::{RelayError, RELAY_DIAL_TIMEOUT_SECS};
use crate::lifecycle::ConnectionLifecycle;
use crate::message::{RelayEvent, RelayMessage};
use crate::socket;
use crate::socket::{InboundAction, InboundPoll, OutboundTurn, QueuePoll, WriteAction};
use vstd::prelude::*;

verus! {

/// Whether an event reports exactly what a message says. A connection event
/// reports no message, and an acknowledgement or a message of the outbound
/// direction is reported by no event.
pub open spec fn reports(event: RelayEvent, msg: RelayMessage) -> bool {
    match event {
        RelayEvent::Error { message } => msg == (RelayMessage::Error { message }),
        RelayEvent::AuthOk { user_id, device_id } => msg == (RelayMessage::AuthOk {
            user_id,
            device_id,
        }),
        RelayEvent::AuthError { message } => msg == (RelayMessage::AuthError { message }),
        RelayEvent::DeviceMessageReceived {
            source_device_id,
            correlation_id,
            encrypted_data,
            nonce,
        } => msg == (RelayMessage::IncomingDeviceMessage {
            source_device_id,
            correlation_id,
            encrypted_data,
            nonce,
        }),
        RelayEvent::DevicePresence { devices } => msg == (RelayMessage::DevicePresence { devices }),
        RelayEvent::Connected | RelayEvent::Reconnected | RelayEvent::Disconnected => false,
    }
}

/// Whether a message has something to report.
pub open spec fn is_report(msg: RelayMessage) -> bool {
    msg is Error || msg is AuthOk || msg is AuthError || msg is IncomingDeviceMessage
        || msg is DevicePresence
}

/// Every inbound message that has something to report becomes the event that
/// reports it, field for field; no other message becomes an event.
pub proof fn law_messages_become_their_events(msg: RelayMessage, r: Option<RelayEvent>)
    requires
        call_ensures(RelayMessage::into_event, (msg,), r),
    ensures
        r is Some <==> is_report(msg),
        r matches Some(event) ==> reports(event, msg),
{
}

/// A message is dispatched exactly if it comes from the current run and has
/// something to report, and then as the event that reports it.
pub proof fn law_the_current_run_dispatches(
    owner: &ConnectionLifecycle,
    generation: u64,
    msg: RelayMessage,
    r: Option<RelayEvent>,
)
    requires
        call_ensures(ConnectionLifecycle::dispatch, (owner, generation, msg), r),
    ensures
        r is Some <==> owner.generation == generation && is_report(msg),
        r matches Some(event) ==> reports(event, msg),
{
}

/// The read half delivers exactly the reports of its run, each as the event that
/// reports it field for field, and delivers nothing else. It stops exactly when
/// nothing came in time, the stream ended or failed, or the relay closes.
pub proof fn law_the_read_half_delivers_every_report(
    owner: &ConnectionLifecycle,
    generation: u64,
    poll: InboundPoll,
    r: InboundAction,
)
    requires
        call_ensures(socket::read_inbound, (owner, generation, poll), r),
    ensures
        r is Deliver <==> owner.generation == generation && (poll matches InboundPoll::Text {
            message: Some(msg),
        } && is_report(msg)),
        r matches InboundAction::Deliver { event } ==> (poll matches InboundPoll::Text {
            message: Some(msg),
        } && reports(event, msg)),
        r is Stop <==> poll is TimedOut || poll is Ended || poll is Failed || poll is Close,
{
}

/// A command that was taken from the queue is sent, whatever it is and whether or
/// not a heartbeat is due; the write half waits only if the queue offered nothing,
/// and ends only if the queue never will.
pub proof fn law_a_taken_command_is_sent(
    heartbeat_due: bool,
    offered: QueuePoll,
    r: OutboundTurn,
)
    requires
        call_ensures(socket::next_relay_outbound, (heartbeat_due, Some(offered)), r),
    ensures
        offered matches QueuePoll::Command { message } ==> r == (OutboundTurn::Send { message }),
        r is Wait <==> offered is Pending,
        r is Finish <==> offered is Closed,
        !(r is AskQueue),
{
}

/// A due heartbeat goes before the queue: it is sent without asking, and the
/// queue is asked exactly if none is due.
pub proof fn law_a_due_heartbeat_goes_first(heartbeat_due: bool, r: OutboundTurn)
    requires
        call_ensures(socket::next_relay_outbound, (heartbeat_due, None::<QueuePoll>), r),
    ensures
        heartbeat_due ==> r == (OutboundTurn::Send { message: RelayMessage::Heartbeat }),
        !heartbeat_due ==> r is AskQueue,
{
}

/// The write half goes on exactly after a write that succeeded in time, and a
/// failed write is told with its own error.
pub proof fn law_only_a_good_write_goes_on(
    attempt: Option<Result<(), RelayError>>,
    written: Result<(), RelayError>,
    action: WriteAction,
)
    requires
        call_ensures(socket::write_result, (attempt,), written),
        call_ensures(socket::after_write, (&written,), action),
    ensures
        attempt is None ==> written == Err::<(), RelayError>(RelayError::WriteTimedOut),
        attempt matches Some(result) ==> written == result,
        action == WriteAction::Continue <==> attempt is Some && attempt->0 is Ok,
        action == WriteAction::Stop <==> attempt is None || attempt->0 is Err,
{
}

/// A heartbeat goes out every thirty seconds, and silence is borne for longer than
/// two of them, but not for three. A write and a dial have fifteen seconds, and a
/// message has 64 mebibytes.
pub proof fn law_deadlines_and_sizes()
    ensures
        socket::HEARTBEAT_PERIOD_SECS == 30,
        2 * socket::HEARTBEAT_PERIOD_SECS < socket::RELAY_INBOUND_IDLE_TIMEOUT_SECS < 3
            * socket::HEARTBEAT_PERIOD_SECS,
        socket::RELAY_INBOUND_IDLE_TIMEOUT_SECS == 75,
        socket::RELAY_WRITE_TIMEOUT_SECS == 15,
        RELAY_DIAL_TIMEOUT_SECS == 15,
        socket::RELAY_MAX_MESSAGE_BYTES == 67_108_864,
{
}

/// A dial gives what came in time, and otherwise the error that names its URL.
pub proof fn law_a_dial_gives_what_came_in_time<T>(
    ws_url: &str,
    attempt: Option<Result<T, RelayError>>,
    r: Result<T, RelayError>,
)
    requires
        call_ensures(socket::dial_result::<T>, (ws_url, attempt), r),
    ensures
        attempt matches Some(result) ==> r == result,
        attempt is None ==> (r matches Err(RelayError::DialTimedOut { ws_url: url }) && url@
            == ws_url@),
{
}

/// A failed dial names its URL and its reason.
pub proof fn law_a_failed_dial_says_why(ws_url: &str, reason: &str, r: RelayError)
    requires
        call_ensures(socket::dial_failure, (ws_url, reason), r),
    ensures
        r matches RelayError::Dial { ws_url: url, reason: why } && url@ == ws_url@ && why@
            == reason@,
{
}

/// Trust needs a root certificate, and any will do.
pub proof fn law_trust_needs_a_root(roots: usize, r: Result<(), RelayError>)
    requires
        call_ensures(socket::check_trusted_roots, (roots,), r),
    ensures
        r is Ok <==> roots > 0,
        r is Err ==> r->Err_0 == RelayError::NoTrustedRoots,
{
}

} // verus!
