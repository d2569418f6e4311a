//! What each operation does, said of what goes in and what comes out.
//!
//! Every law here speaks of an executable function by its contract and names the
//! outcome in the plain terms of the protocol: fields, texts and numbers.
pub mod endpoint;
pub mod socket;
pub mod supervisor;
pub mod texts;

use crate::client::{ConnectStart, Disconnect, RelayClient};
use crate::error::RelayError;
use crate::lifecycle::{ConnectionLifecycle, ConnectionState, ReconnectCtx};
use crate::message::RelayMessage;
use crate::queue;
use crate::queue::{CommandQueue, QueueReply, QueueView};
use crate::supervisor::Phase;
use tokio::sync::mpsc;
use tokio::task::JoinHandle;
use vstd::prelude::*;

verus! {

/// Whether two reconnect contexts hold the same texts.
pub open spec fn same_ctx(a: Option<ReconnectCtx>, b: Option<ReconnectCtx>) -> bool {
    match (a, b) {
        (Some(x), Some(y)) => x.ws_url@ == y.ws_url@ && x.token@ == y.token@ && x.device_name@
            == y.device_name@,
        (None, None) => true,
        _ => false,
    }
}

/// Whether nothing happened to a command queue.
pub open spec fn same_queue(a: Option<CommandQueue>, b: Option<CommandQueue>) -> bool {
    match (a, b) {
        (Some(x), Some(y)) => x@ == y@,
        (None, None) => true,
        _ => false,
    }
}

/// Whether nothing happened to a connection.
pub open spec fn same_connection(a: ConnectionLifecycle, b: ConnectionLifecycle) -> bool {
    &&& a.generation == b.generation
    &&& a.state == b.state
    &&& a.task == b.task
    &&& same_queue(a.cmd_tx, b.cmd_tx)
    &&& same_ctx(a.reconnect_ctx, b.reconnect_ctx)
}

/// A connection with the reconnect context of another.
pub open spec fn with_ctx_of(
    owner: ConnectionLifecycle,
    other: ConnectionLifecycle,
) -> ConnectionLifecycle {
    ConnectionLifecycle { reconnect_ctx: other.reconnect_ctx, ..owner }
}

/// A client starts without a connection.
pub proof fn law_a_new_client_is_disconnected(client: RelayClient, lifecycle: ConnectionLifecycle)
    requires
        call_ensures(RelayClient::new, (), client),
        call_ensures(ConnectionLifecycle::new, (), lifecycle),
    ensures
        client.lifecycle.generation == 0,
        client.lifecycle.state == ConnectionState::Disconnected,
        client.lifecycle.task is None,
        client.lifecycle.cmd_tx is None,
        client.lifecycle.reconnect_ctx is None,
        same_connection(lifecycle, client.lifecycle),
{
}

/// The state that a client tells is the state of its connection.
pub proof fn law_the_state_is_told(client: &RelayClient, r: ConnectionState)
    requires
        call_ensures(RelayClient::connection_state, (client,), r),
    ensures
        r == client.lifecycle.state,
{
}

/// Connecting, from whatever there was, raises the generation by one, is
/// underway, hands back the task of the connection that it replaces, drops that
/// connection's queue and account, and keeps exactly the URL that it was given.
/// The new run is of the new generation and waits for its first dial.
pub proof fn law_connect_replaces_the_connection(
    client: &mut RelayClient,
    ws_url: &str,
    start: ConnectStart,
)
    requires
        old(client).lifecycle.generation < u64::MAX,
        call_ensures(RelayClient::connect, (client, ws_url), start),
    ensures
        final(client).lifecycle.generation == old(client).lifecycle.generation + 1,
        final(client).lifecycle.state == ConnectionState::Connecting,
        final(client).lifecycle.task is None,
        final(client).lifecycle.cmd_tx is None,
        final(client).lifecycle.reconnect_ctx matches Some(ctx) && ctx.ws_url@ == ws_url@
            && ctx.token@.len() == 0 && ctx.device_name@.len() == 0,
        start.retired == old(client).lifecycle.task,
        start.supervisor.generation == old(client).lifecycle.generation + 1,
        start.supervisor.phase == Phase::Dialing,
{
    assert(final(client).lifecycle@.ctx is Some);
}

/// A connection begins with a new generation, its own URL and nothing of the one
/// before.
pub proof fn law_begin_replaces_the_connection(
    owner: &mut ConnectionLifecycle,
    ws_url: &str,
    retired: Option<JoinHandle<()>>,
)
    requires
        old(owner).generation < u64::MAX,
        call_ensures(ConnectionLifecycle::begin, (owner, ws_url), retired),
    ensures
        final(owner).generation == old(owner).generation + 1,
        final(owner).state == ConnectionState::Connecting,
        final(owner).task is None,
        final(owner).cmd_tx is None,
        final(owner).reconnect_ctx matches Some(ctx) && ctx.ws_url@ == ws_url@ && ctx.token@.len()
            == 0 && ctx.device_name@.len() == 0,
        retired == old(owner).task,
{
    assert(final(owner)@.ctx is Some);
}

/// A context for a URL holds that URL and no account.
pub proof fn law_a_context_starts_without_an_account(ws_url: &str, ctx: ReconnectCtx)
    requires
        call_ensures(ReconnectCtx::for_url, (ws_url,), ctx),
    ensures
        ctx.ws_url@ == ws_url@,
        ctx.token@.len() == 0,
        ctx.device_name@.len() == 0,
{
}

/// Adopting a task keeps that task and touches nothing else.
pub proof fn law_an_adopted_task_is_kept(client: &mut RelayClient, task: JoinHandle<()>)
    requires
        call_ensures(RelayClient::adopt_task, (client, task), ()),
    ensures
        final(client).lifecycle.task == Some(task),
        same_connection(
            ConnectionLifecycle { task: old(client).lifecycle.task, ..final(client).lifecycle },
            old(client).lifecycle,
        ),
{
    assert(final(client).lifecycle@.ctx == old(client).lifecycle@.ctx);
    assert(final(client).lifecycle@.queue == old(client).lifecycle@.queue);
}

/// A connect fails as cancelled if its run gave no verdict, fails with the error
/// of its run if that is the verdict, and otherwise succeeds exactly if nothing
/// replaced it since.
pub proof fn law_connect_reports_the_verdict(
    client: &RelayClient,
    generation: u64,
    ready: Option<Result<(), RelayError>>,
    r: Result<(), RelayError>,
)
    requires
        call_ensures(RelayClient::connect_result, (client, generation, ready), r),
    ensures
        ready is None ==> r == Err::<(), RelayError>(RelayError::ConnectCancelled),
        ready is Some && ready->0 is Err ==> r == ready->0,
        r is Ok <==> ready is Some && ready->0 is Ok && client.lifecycle.generation == generation,
        ready is Some && ready->0 is Ok && client.lifecycle.generation != generation ==> r
            == Err::<(), RelayError>(RelayError::ConnectSuperseded),
{
}

/// Disconnecting, and dropping the client, leave no connection, no queue and no
/// account, raise the generation by one and hand back the task; disconnecting
/// also tells so.
pub proof fn law_disconnect_leaves_nothing(
    client: &mut RelayClient,
    end: Disconnect,
    dropped: &mut RelayClient,
    retired: Option<JoinHandle<()>>,
)
    requires
        old(client).lifecycle.generation < u64::MAX,
        old(dropped).lifecycle.generation < u64::MAX,
        call_ensures(RelayClient::disconnect, (client,), end),
        call_ensures(RelayClient::release, (dropped,), retired),
    ensures
        final(client).lifecycle.generation == old(client).lifecycle.generation + 1,
        final(client).lifecycle.state == ConnectionState::Disconnected,
        final(client).lifecycle.task is None,
        final(client).lifecycle.cmd_tx is None,
        final(client).lifecycle.reconnect_ctx is None,
        end.retired == old(client).lifecycle.task,
        end.event is Disconnected,
        final(dropped).lifecycle.generation == old(dropped).lifecycle.generation + 1,
        final(dropped).lifecycle.state == ConnectionState::Disconnected,
        final(dropped).lifecycle.task is None,
        final(dropped).lifecycle.cmd_tx is None,
        final(dropped).lifecycle.reconnect_ctx is None,
        retired == old(dropped).lifecycle.task,
{
    assert(final(client).lifecycle@.ctx is None && final(client).lifecycle@.queue is None);
    assert(final(dropped).lifecycle@.ctx is None && final(dropped).lifecycle@.queue is None);
}

/// A retired connection has no queue and no account, and is of a later
/// generation.
pub proof fn law_retire_leaves_nothing(
    owner: &mut ConnectionLifecycle,
    retired: Option<JoinHandle<()>>,
)
    requires
        old(owner).generation < u64::MAX,
        call_ensures(ConnectionLifecycle::retire, (owner,), retired),
    ensures
        final(owner).generation == old(owner).generation + 1,
        final(owner).state == ConnectionState::Disconnected,
        final(owner).task is None,
        final(owner).cmd_tx is None,
        final(owner).reconnect_ctx is None,
        retired == old(owner).task,
{
    assert(final(owner)@.ctx is None && final(owner)@.queue is None);
}

/// The accepted commands are those that were answered as queued, in the order in
/// which they were offered.
pub proof fn law_accepted_commands_are_the_queued_ones(
    offers: Seq<(RelayMessage, QueueReply)>,
    msg: RelayMessage,
)
    ensures
        queue::accepted_of(Seq::empty()) == Seq::<RelayMessage>::empty(),
        queue::accepted_of(offers.push((msg, QueueReply::Queued))) == queue::accepted_of(
            offers,
        ).push(msg),
        queue::accepted_of(offers.push((msg, QueueReply::Full))) == queue::accepted_of(offers),
        queue::accepted_of(offers.push((msg, QueueReply::Closed))) == queue::accepted_of(offers),
{
    assert(offers.push((msg, QueueReply::Queued)).drop_last() =~= offers);
    assert(offers.push((msg, QueueReply::Full)).drop_last() =~= offers);
    assert(offers.push((msg, QueueReply::Closed)).drop_last() =~= offers);
}

/// Whether a queue went from `before` to `after` by one offer of `msg` that the
/// caller was told `r` of: the command is recorded behind the earlier ones, and
/// it is accepted exactly if the other end listens and fewer commands than the
/// queue holds were accepted and not taken.
pub open spec fn one_offer(
    before: QueueView,
    msg: RelayMessage,
    after: QueueView,
    r: Result<(), RelayError>,
) -> bool {
    let untaken = queue::accepted_of(before.offers).len() - after.taken;
    &&& after.sender == before.sender
    &&& after.capacity == before.capacity
    &&& before.taken <= after.taken
    &&& before.closed ==> after.closed
    &&& untaken >= 0
    &&& after.closed <==> r == Err::<(), RelayError>(RelayError::QueueClosed)
    &&& !after.closed && untaken < before.capacity <==> r == Ok::<(), RelayError>(())
    &&& !after.closed && untaken >= before.capacity <==> r == Err::<(), RelayError>(
        RelayError::QueueFull,
    )
    &&& after.offers == before.offers.push(
        (
            msg,
            if r is Ok {
                QueueReply::Queued
            } else if after.closed {
                QueueReply::Closed
            } else {
                QueueReply::Full
            },
        ),
    )
}

/// Whether a connection went from `before` to `after` by one command that the
/// caller was told `r` of: without an open socket the command is refused and
/// nothing happens, and otherwise it is offered to the queue, once.
pub open spec fn one_command(
    before: ConnectionLifecycle,
    msg: RelayMessage,
    after: ConnectionLifecycle,
    r: Result<(), RelayError>,
) -> bool {
    if before.state == ConnectionState::Connected && before.cmd_tx is Some {
        &&& after.cmd_tx is Some
        &&& one_offer(before.cmd_tx->0@, msg, after.cmd_tx->0@, r)
        &&& same_connection(ConnectionLifecycle { cmd_tx: before.cmd_tx, ..after }, before)
    } else {
        &&& r == Err::<(), RelayError>(RelayError::NotConnected)
        &&& same_connection(after, before)
    }
}

/// Sending a command offers exactly that command, once, to the queue of the open
/// socket and tells what the queue answered; without an open socket it is refused
/// and nothing happens.
pub proof fn law_send_offers_the_command(
    client: &mut RelayClient,
    owner: &mut ConnectionLifecycle,
    msg: RelayMessage,
    r: Result<(), RelayError>,
    enqueued: Result<(), RelayError>,
)
    requires
        call_ensures(RelayClient::send, (client, msg), r),
        call_ensures(ConnectionLifecycle::enqueue, (owner, msg), enqueued),
    ensures
        one_command(old(client).lifecycle, msg, final(client).lifecycle, r),
        one_command(*old(owner), msg, *final(owner), enqueued),
{
    let a = old(client).lifecycle@;
    let b = final(client).lifecycle@;
    assert(a.enqueued(msg, b, r));
    let c = old(owner)@;
    let d = final(owner)@;
    assert(c.enqueued(msg, d, enqueued));
    assert(b.ctx == a.ctx && d.ctx == c.ctx);
    assert(b.queue is Some <==> a.queue is Some);
    assert(d.queue is Some <==> c.queue is Some);
}

/// What the queue answered is what the caller is told.
pub proof fn law_answers_are_told(reply: QueueReply, r: Result<(), RelayError>)
    requires
        call_ensures(QueueReply::into_result, (reply,), r),
    ensures
        r is Ok <==> reply == QueueReply::Queued,
        reply == QueueReply::Full ==> r == Err::<(), RelayError>(RelayError::QueueFull),
        reply == QueueReply::Closed ==> r == Err::<(), RelayError>(RelayError::QueueClosed),
{
}

/// A new queue is empty, holds what it was made for, and is one channel with the
/// half that it came with.
pub proof fn law_a_new_queue_is_empty(
    capacity: usize,
    r: (CommandQueue, mpsc::Receiver<RelayMessage>),
)
    requires
        0 < capacity <= usize::MAX / 8,
        call_ensures(CommandQueue::with_capacity, (capacity,), r),
    ensures
        r.0@.capacity == capacity,
        r.0@.offers =~= Seq::empty(),
        r.0@.taken == 0,
        !r.0@.closed,
        queue::queue_made(capacity as nat, r.0@.sender, r.1),
{
}

/// Authenticating sends the account authentication of a desktop with exactly this
/// token and this name, and nothing else. If it is accepted, exactly this account
/// is remembered, with the URL as it was; if it is refused, no account is.
pub proof fn law_authentication_names_the_account(
    client: &mut RelayClient,
    token: &str,
    device_name: &str,
    r: Result<(), RelayError>,
)
    requires
        call_ensures(RelayClient::connect_authenticated, (client, token, device_name), r),
    ensures
        exists|msg: RelayMessage| #[trigger]
            one_command(
                old(client).lifecycle,
                msg,
                with_ctx_of(final(client).lifecycle, old(client).lifecycle),
                r,
            ) && (msg matches RelayMessage::AuthConnect {
                token: t,
                device_name: n,
                device_kind: k,
            } && t@ == token@ && n@ == device_name@ && k@ == "desktop"@),
        r is Err ==> same_ctx(
            final(client).lifecycle.reconnect_ctx,
            old(client).lifecycle.reconnect_ctx,
        ),
        r is Ok ==> match old(client).lifecycle.reconnect_ctx {
            Some(ctx) => final(client).lifecycle.reconnect_ctx matches Some(after)
                && after.ws_url@ == ctx.ws_url@ && after.token@ == token@ && after.device_name@
                == device_name@,
            None => final(client).lifecycle.reconnect_ctx is None,
        },
{
    let a = old(client).lifecycle@;
    let b = final(client).lifecycle@;
    assert(crate::client::authentication_queued(a, token@, device_name@, b, r));
    let (msg, between) = choose|msg: RelayMessage, between: crate::lifecycle::LifecycleView|
        msg.authenticates(token@, device_name@) && #[trigger] a.enqueued(msg, between, r) && b
            == if r is Ok {
            between.authenticated(token@, device_name@)
        } else {
            between
        };
    assert(b.queue is Some <==> a.queue is Some);
    assert(b.ctx is Some <==> a.ctx is Some);
    assert(one_command(
        old(client).lifecycle,
        msg,
        with_ctx_of(final(client).lifecycle, old(client).lifecycle),
        r,
    ));
}

/// Remembering an account replaces the account of the context, keeps its URL, and
/// makes no context where there is none.
pub proof fn law_the_account_is_remembered(
    owner: &mut ConnectionLifecycle,
    token: &str,
    device_name: &str,
)
    requires
        call_ensures(ConnectionLifecycle::remember_account, (owner, token, device_name), ()),
    ensures
        match old(owner).reconnect_ctx {
            Some(ctx) => final(owner).reconnect_ctx matches Some(after) && after.ws_url@
                == ctx.ws_url@ && after.token@ == token@ && after.device_name@ == device_name@,
            None => final(owner).reconnect_ctx is None,
        },
        same_connection(
            with_ctx_of(*final(owner), *old(owner)),
            *old(owner),
        ),
{
    assert(final(owner)@.ctx is Some <==> old(owner)@.ctx is Some);
    assert(final(owner)@.queue == old(owner)@.queue);
}

/// An authentication names the token and the device that it was made for, and a
/// desktop.
pub proof fn law_an_authentication_is_of_a_desktop(token: &str, name: &str, r: RelayMessage)
    requires
        call_ensures(RelayMessage::auth_connect, (token, name), r),
    ensures
        r matches RelayMessage::AuthConnect { token: t, device_name: n, device_kind: k } && t@
            == token@ && n@ == name@ && k@ == "desktop"@,
{
}

} // verus!
