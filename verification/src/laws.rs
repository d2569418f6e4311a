//! What the client promises across operations and across the steps of its
//! supervisors.
use crate::client;
use crate::client::DeviceMessageStep;
use crate::error::RelayError;
use crate::lifecycle::{ConnectionState, LifecycleView};
use crate::message::{RelayEvent, RelayMessage};
use crate::queue;
use crate::socket;
use crate::socket::{InboundPoll, QueuePoll};
use crate::supervisor;
use crate::supervisor::{
    Phase, ReadyReport, Supervisor, SupervisorAction, SupervisorEvent, SupervisorStep,
    FIRST_BACKOFF_SECS, MAX_BACKOFF_SECS,
};
use vstd::arithmetic::power2::*;
use vstd::prelude::*;

verus! {

/// A client starts well-formed, and connecting, disconnecting and remembering an
/// account keep it so.
pub proof fn law_operations_keep_the_connection_well_formed(
    owner: LifecycleView,
    ws_url: Seq<char>,
    token: Seq<char>,
    device_name: Seq<char>,
)
    requires
        owner.wf(),
    ensures
        LifecycleView::initial().wf(),
        owner.connecting(ws_url).wf(),
        owner.retired().wf(),
        owner.authenticated(token, device_name).wf(),
{
}

/// Whatever a client does, every supervisor stays in step with the connection:
/// connecting and disconnecting leave the earlier runs behind, remembering an
/// account concerns none, and a new run starts in step.
pub proof fn law_operations_keep_supervision(
    owner: LifecycleView,
    run: Supervisor,
    ws_url: Seq<char>,
    token: Seq<char>,
    device_name: Seq<char>,
)
    requires
        run.supervises(owner),
        owner.generation < u64::MAX,
    ensures
        run.supervises(owner.connecting(ws_url)),
        run.supervises(owner.retired()),
        run.supervises(owner.authenticated(token, device_name)),
        !run.is_current(owner.connecting(ws_url)),
        !run.is_current(owner.retired()),
        (Supervisor {
            generation: owner.connecting(ws_url).generation,
            phase: Phase::Dialing,
        }).supervises(owner.connecting(ws_url)),
{
}

/// A step of a supervisor keeps the connection well-formed and stays in step
/// with it, touches neither its generation nor its task, and disturbs no other
/// run.
pub proof fn law_steps_keep_supervision(
    run: Supervisor,
    other: Supervisor,
    owner: LifecycleView,
    event: SupervisorEvent,
    after: Supervisor,
    owner_after: LifecycleView,
    step: SupervisorStep,
)
    requires
        owner.wf(),
        run.supervises(owner),
        other.supervises(owner),
        other.generation != run.generation,
        run.phase.awaits(event),
        run.stepped(owner, event, after, owner_after, step),
    ensures
        owner_after.wf(),
        after.supervises(owner_after),
        other.supervises(owner_after),
        owner_after.generation == owner.generation,
        owner_after.task == owner.task,
{
}

/// A superseded run is inert: it changes nothing, emits nothing, reports no
/// connection, opens no socket and dials no more. All it still does is end, or
/// pause once more if its last dial failed.
pub proof fn law_superseded_run_is_inert(
    run: Supervisor,
    owner: LifecycleView,
    event: SupervisorEvent,
    after: Supervisor,
    owner_after: LifecycleView,
    step: SupervisorStep,
)
    requires
        !run.is_current(owner),
        run.phase.awaits(event),
        run.stepped(owner, event, after, owner_after, step),
    ensures
        owner_after == owner,
        step.event is None,
        step.ready != Some(ReadyReport::Connected),
        step.action is Stop || (run.phase is Redialing && event is DialFailed && step.action is Sleep),
        step.action is Stop <==> after.phase is Stopped,
{
}

/// Whatever the supervisor asks for, it waits for what can come of it, and for
/// nothing else; a run that was ended waits for nothing.
pub proof fn law_supervisor_awaits_what_it_asked_for(
    run: Supervisor,
    owner: LifecycleView,
    event: SupervisorEvent,
    after: Supervisor,
    owner_after: LifecycleView,
    step: SupervisorStep,
    next: SupervisorEvent,
)
    requires
        run.phase.awaits(event),
        run.stepped(owner, event, after, owner_after, step),
    ensures
        after.phase.awaits(next) <==> match step.action {
            SupervisorAction::Serve { .. } => next is SocketClosed,
            SupervisorAction::Sleep { .. } => next is BackoffElapsed,
            SupervisorAction::Redial { .. } => next is Opened || next is DialFailed,
            SupervisorAction::Stop => false,
        },
{
}

/// Disconnecting during a pause prevents the reconnect: whatever run paused, the
/// end of the pause ends it without a dial.
pub proof fn law_disconnect_during_backoff_does_not_reconnect(
    run: Supervisor,
    owner: LifecycleView,
    after: Supervisor,
    owner_after: LifecycleView,
    step: SupervisorStep,
)
    requires
        run.supervises(owner),
        owner.generation < u64::MAX,
        run.phase is Backoff,
        run.stepped(
            owner.retired(),
            SupervisorEvent::BackoffElapsed,
            after,
            owner_after,
            step,
        ),
    ensures
        owner_after == owner.retired(),
        owner_after.state == ConnectionState::Disconnected,
        step.stops_silently(),
{
}

/// A failed first dial leaves the client disconnected: the state says so, the
/// event says so, the waiting connect is told, and commands are refused.
pub proof fn law_failed_initial_dial_disconnects(
    run: Supervisor,
    owner: LifecycleView,
    after: Supervisor,
    owner_after: LifecycleView,
    step: SupervisorStep,
    msg: RelayMessage,
    owner_sent: LifecycleView,
    sent: Result<(), RelayError>,
)
    requires
        run.phase is Dialing,
        run.is_current(owner),
        run.stepped(owner, SupervisorEvent::DialFailed, after, owner_after, step),
        owner_after.enqueued(msg, owner_sent, sent),
    ensures
        owner_after.state == ConnectionState::Disconnected,
        step.event == Some(RelayEvent::Disconnected),
        owner_after.ctx is None,
        step.ready == Some(ReadyReport::DialFailed),
        step.action is Stop,
        sent == Err::<(), RelayError>(RelayError::NotConnected),
{
}

/// An account that was accepted for queueing is authenticated again before a
/// reconnected socket takes any command: after a loss of the socket the client
/// refuses commands, and the next dial has the authentication of that account
/// to write.
pub proof fn law_reconnect_repeats_authentication(
    run: Supervisor,
    owner: LifecycleView,
    token: Seq<char>,
    device_name: Seq<char>,
    lost: Supervisor,
    owner_lost: LifecycleView,
    loss: SupervisorStep,
    redial: Supervisor,
    owner_redial: LifecycleView,
    step: SupervisorStep,
    msg: RelayMessage,
    owner_sent: LifecycleView,
    sent: Result<(), RelayError>,
)
    requires
        owner.wf(),
        run.supervises(owner),
        run.is_current(owner),
        run.phase is Serving,
        token.len() > 0,
        run.stepped(
            owner.authenticated(token, device_name),
            SupervisorEvent::SocketClosed,
            lost,
            owner_lost,
            loss,
        ),
        lost.stepped(owner_lost, SupervisorEvent::BackoffElapsed, redial, owner_redial, step),
        owner_redial.enqueued(msg, owner_sent, sent),
    ensures
        sent == Err::<(), RelayError>(RelayError::NotConnected),
        step.action matches SupervisorAction::Redial { ws_url, auth } && ws_url@
            == owner.ctx->0.ws_url && (auth matches Some(first) && first.authenticates(
            token,
            device_name,
        )),
{
}

/// Commands of a lost socket are not replayed: the loss drops their queue, no
/// later step brings a queue back, and a reopened socket is served from a newly
/// made one which nothing was offered to.
pub proof fn law_commands_of_a_lost_socket_are_dropped(
    run: Supervisor,
    owner: LifecycleView,
    event: SupervisorEvent,
    after: Supervisor,
    owner_after: LifecycleView,
    step: SupervisorStep,
)
    requires
        run.stepped(owner, event, after, owner_after, step),
        run.phase.awaits(event),
    ensures
        event is SocketClosed && run.is_current(owner) ==> owner_after.queue is None,
        !(event is Opened) && owner_after.queue is Some ==> owner_after.queue == owner.queue,
        step.action is Serve <==> event is Opened && run.is_current(owner),
        step.action matches SupervisorAction::Serve { commands } ==> owner_after.queue is Some
            && queue::queue_made(
            queue::RELAY_COMMAND_QUEUE_CAPACITY as nat,
            owner_after.queue->0.sender,
            commands,
        ) && owner_after.queue->0.capacity == queue::RELAY_COMMAND_QUEUE_CAPACITY
            && owner_after.queue->0.offers.len() == 0 && owner_after.accepted().len() == 0
            && owner_after.queue->0.waiting().len() == 0,
{
}

/// The queue takes exactly the commands that were told to be queued: an accepted
/// command is appended, a refused one leaves the queue as it was, and neither
/// touches anything else of the connection.
pub proof fn law_the_queue_takes_what_was_accepted(
    owner: LifecycleView,
    msg: RelayMessage,
    after: LifecycleView,
    sent: Result<(), RelayError>,
)
    requires
        owner.enqueued(msg, after, sent),
    ensures
        sent is Ok ==> after.accepted() == owner.accepted().push(msg),
        sent is Err ==> after.accepted() == owner.accepted(),
        after == (LifecycleView { queue: after.queue, ..owner }),
        owner.wf() ==> after.wf(),
        after.queue is Some <==> owner.queue is Some,
        after.queue matches Some(queue) ==> queue.sender == owner.queue->0.sender && queue.capacity
            == owner.queue->0.capacity,
{
    if owner.accepts_commands() {
        let offers = owner.queue->0.offers;
        assert(after.queue->0.offers.drop_last() =~= offers);
    }
}

/// Authenticating puts the authentication of the account on the queue and
/// nothing else, and remembers the account, exactly if it is accepted; a refused
/// one leaves the queue and the account as they were.
pub proof fn law_authentication_is_all_that_is_queued(
    owner: LifecycleView,
    token: Seq<char>,
    device_name: Seq<char>,
    after: LifecycleView,
    r: Result<(), RelayError>,
)
    requires
        client::authentication_queued(owner, token, device_name, after, r),
    ensures
        r is Ok ==> exists|msg: RelayMessage| #[trigger]
            msg.authenticates(token, device_name) && after.accepted() == owner.accepted().push(msg),
        r is Ok ==> after.ctx == owner.authenticated(token, device_name).ctx,
        r is Err ==> after.accepted() == owner.accepted() && after.ctx == owner.ctx,
        after.state == owner.state,
        after.generation == owner.generation,
        after.task == owner.task,
{
    let (msg, between) = choose|msg: RelayMessage, between: LifecycleView|
        msg.authenticates(token, device_name) && #[trigger] owner.enqueued(msg, between, r)
            && after == if r is Ok {
            between.authenticated(token, device_name)
        } else {
            between
        };
    law_the_queue_takes_what_was_accepted(owner, msg, between, r);
    assert(msg.authenticates(token, device_name));
}

/// Commands are refused in every state but the connected one, and then no queue
/// is touched.
pub proof fn law_only_a_connected_client_takes_commands(
    owner: LifecycleView,
    msg: RelayMessage,
    after: LifecycleView,
    sent: Result<(), RelayError>,
)
    requires
        owner.enqueued(msg, after, sent),
    ensures
        owner.state != ConnectionState::Connected ==> sent == Err::<(), RelayError>(
            RelayError::NotConnected,
        ) && after == owner,
        owner.wf() && owner.state == ConnectionState::Connected ==> sent != Err::<(), RelayError>(
            RelayError::NotConnected,
        ),
{
}

/// The queue holds as many commands as its capacity says, and no more. While the
/// connection listens, a command is accepted if fewer than that wait in the queue
/// when it is offered, and refused as one too many if that many do; once the
/// connection no longer listens every command is refused. An accepted command
/// waits behind the others.
pub proof fn law_the_queue_holds_its_capacity(
    owner: LifecycleView,
    msg: RelayMessage,
    after: LifecycleView,
    sent: Result<(), RelayError>,
)
    requires
        owner.wf(),
        owner.state == ConnectionState::Connected,
        owner.enqueued(msg, after, sent),
    ensures
        ({
            let found = owner.queue->0.found(after.queue->0.taken, after.queue->0.closed);
            &&& found.waiting().len() <= found.capacity
            &&& found.closed ==> sent == Err::<(), RelayError>(RelayError::QueueClosed)
            &&& !found.closed && found.waiting().len() < found.capacity ==> sent is Ok
            &&& !found.closed && found.waiting().len() == found.capacity ==> sent == Err::<
                (),
                RelayError,
            >(RelayError::QueueFull)
            &&& after.queue->0.waiting() == if sent is Ok {
                found.waiting().push(msg)
            } else {
                found.waiting()
            }
            &&& after.queue->0.waiting().len() <= found.capacity
        }),
{
    law_the_queue_takes_what_was_accepted(owner, msg, after, sent);
    let found = owner.queue->0.found(after.queue->0.taken, after.queue->0.closed);
    assert(found.accepted() == owner.accepted());
    if sent is Ok {
        assert(after.queue->0.waiting() =~= found.waiting().push(msg));
    }
}

/// The text that a refused command is answered with does not show the command:
/// it is one of three fixed texts.
pub proof fn law_refusals_do_not_show_the_command(
    owner: LifecycleView,
    msg: RelayMessage,
    after: LifecycleView,
    sent: Result<(), RelayError>,
)
    requires
        owner.enqueued(msg, after, sent),
        sent is Err,
    ensures
        sent->Err_0.text() == "Relay transport is not connected"@ || sent->Err_0.text()
            == "Relay send queue is full; request was not queued"@ || sent->Err_0.text()
            == "Relay connection is closed"@,
{
}

/// What a caller is told does not depend on the command: two commands that find
/// the other end of the queue in the same place have the same result, and without
/// a connected transport any two have.
pub proof fn law_results_do_not_depend_on_the_command(
    owner: LifecycleView,
    first: RelayMessage,
    after_first: LifecycleView,
    sent_first: Result<(), RelayError>,
    second: RelayMessage,
    after_second: LifecycleView,
    sent_second: Result<(), RelayError>,
)
    requires
        owner.enqueued(first, after_first, sent_first),
        owner.enqueued(second, after_second, sent_second),
        owner.accepts_commands() ==> after_first.queue->0.taken == after_second.queue->0.taken
            && after_first.queue->0.closed == after_second.queue->0.closed,
    ensures
        sent_first == sent_second,
{
}

/// A connect replaces whatever connection there was: once its socket is open the
/// client is connected, the connect succeeds, the earlier run is superseded, and
/// a command goes to the queue that the new socket is served from, as its first
/// one, unless that socket no longer listens.
pub proof fn law_replacement_connection_takes_over(
    owner: LifecycleView,
    old_run: Supervisor,
    ws_url: Seq<char>,
    new_run: Supervisor,
    after: Supervisor,
    owner_after: LifecycleView,
    step: SupervisorStep,
    msg: RelayMessage,
    owner_sent: LifecycleView,
    sent: Result<(), RelayError>,
)
    requires
        old_run.supervises(owner),
        owner.generation < u64::MAX,
        new_run == (Supervisor {
            generation: owner.connecting(ws_url).generation,
            phase: Phase::Dialing,
        }),
        new_run.stepped(
            owner.connecting(ws_url),
            SupervisorEvent::Opened,
            after,
            owner_after,
            step,
        ),
        owner_after.enqueued(msg, owner_sent, sent),
    ensures
        owner_after.state == ConnectionState::Connected,
        step.ready == Some(ReadyReport::Connected),
        client::connect_outcome(owner_after, new_run.generation, Some(Ok(()))) is Ok,
        !old_run.is_current(owner_after),
        step.action matches SupervisorAction::Serve { commands } && queue::queue_made(
            queue::RELAY_COMMAND_QUEUE_CAPACITY as nat,
            owner_sent.queue->0.sender,
            commands,
        ),
        sent is Ok || sent == Err::<(), RelayError>(RelayError::QueueClosed),
        sent is Ok ==> owner_sent.accepted() == seq![msg],
{
    law_the_queue_takes_what_was_accepted(owner_after, msg, owner_sent, sent);
}

/// A disconnect fails a connect that is still pending, whatever its run reports,
/// and leaves the client disconnected.
pub proof fn law_disconnect_fails_a_pending_connect(
    owner: LifecycleView,
    run: Supervisor,
    ready: Option<Result<(), RelayError>>,
)
    requires
        run.supervises(owner),
        owner.generation < u64::MAX,
    ensures
        client::connect_outcome(owner.retired(), run.generation, ready) is Err,
        owner.retired().state == ConnectionState::Disconnected,
        !run.is_current(owner.retired()),
{
}

/// Device messages need the account of the present connection: after a connect
/// that was not followed by an authentication, and after a disconnect, they are
/// refused.
pub proof fn law_device_messages_need_the_account(
    owner: LifecycleView,
    ws_url: Seq<char>,
    target: Seq<char>,
    correlation: Seq<char>,
    data: Seq<char>,
    number: Seq<char>,
    step: DeviceMessageStep,
)
    requires
        client::device_message_step(
            owner.connecting(ws_url),
            target,
            correlation,
            data,
            number,
            step,
        ) || client::device_message_step(
            owner.retired(),
            target,
            correlation,
            data,
            number,
            step,
        ),
    ensures
        step == (DeviceMessageStep::Refuse { error: RelayError::NotAuthenticated }),
{
}

/// What gives a socket up: for its read half the idle deadline, the end or a
/// failure of the stream and a close frame, and for its write half a queue that
/// will offer nothing any more and a write that failed or came too late. Anything
/// else leaves both halves at work.
pub proof fn law_what_ends_a_socket(
    owner: LifecycleView,
    generation: u64,
    poll: InboundPoll,
    heartbeat_due: bool,
    offered: Option<QueuePoll>,
    attempt: Option<Result<(), RelayError>>,
)
    ensures
        poll.action(owner, generation) is Stop <==> poll is TimedOut || poll is Ended
            || poll is Failed || poll is Close,
        socket::outbound_turn(heartbeat_due, offered) is Finish <==> offered
            == Some(QueuePoll::Closed),
        socket::write_action(socket::write_outcome(attempt)) is Stop <==> attempt is None
            || attempt->0 is Err,
{
}

/// The pauses between reconnect attempts double from the first to the longest
/// and stay there.
pub proof fn law_backoff_doubles_up_to_its_limit(failures: nat)
    ensures
        supervisor::backoff_after(failures) == if FIRST_BACKOFF_SECS * pow2(failures)
            < MAX_BACKOFF_SECS {
            FIRST_BACKOFF_SECS * pow2(failures)
        } else {
            MAX_BACKOFF_SECS as int
        },
        FIRST_BACKOFF_SECS <= supervisor::backoff_after(failures) <= MAX_BACKOFF_SECS,
        supervisor::backoff_after(failures) <= supervisor::backoff_after(failures + 1),
    decreases failures,
{
    lemma_pow2_pos(failures);
    if failures == 0 {
        lemma2_to64();
    } else {
        law_backoff_doubles_up_to_its_limit((failures - 1) as nat);
        lemma_pow2_unfold(failures);
    }
}

/// The supervisor pauses by that rule: a lost socket is followed by the first
/// pause, and an attempt that fails after the pause for `failures` failures by
/// the pause for one more.
pub proof fn law_supervisor_follows_the_backoff(
    run: Supervisor,
    owner: LifecycleView,
    event: SupervisorEvent,
    after: Supervisor,
    owner_after: LifecycleView,
    step: SupervisorStep,
    failures: nat,
)
    requires
        run.stepped(owner, event, after, owner_after, step),
        run.phase.awaits(event),
        run.phase matches Phase::Redialing { secs } ==> secs == supervisor::backoff_after(failures),
        run.phase matches Phase::Backoff { secs } ==> secs == supervisor::backoff_after(failures),
    ensures
        step.action matches SupervisorAction::Sleep { secs } ==> after.phase == (Phase::Backoff {
            secs,
        }) && secs == supervisor::backoff_after(
            if event is SocketClosed {
                0
            } else {
                failures + 1
            },
        ),
        event is SocketClosed && run.is_current(owner) ==> step.action is Sleep,
        event is DialFailed && run.phase is Redialing ==> step.action is Sleep,
        after.phase matches Phase::Redialing { secs } ==> secs == supervisor::backoff_after(
            failures,
        ),
{
}

} // verus!
