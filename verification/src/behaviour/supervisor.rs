//! What the supervisor of a connection does with each event, and what that comes
//! to over any number of them.
use super::same_connection;
use crate::client;
use crate::error::RelayError;
use crate::lifecycle::{ConnectionLifecycle, ConnectionState, LifecycleView};
use crate::message::{RelayEvent, RelayMessage};
use crate::queue;
use crate::supervisor::{
    Phase, ReadyReport, Supervisor, SupervisorAction, SupervisorEvent, SupervisorStep,
};
use vstd::prelude::*;

verus! {

/// A new run is of the generation it was made for and waits for its first dial.
pub proof fn law_a_run_starts_with_a_dial(generation: u64, run: Supervisor)
    requires
        call_ensures(Supervisor::new, (generation,), run),
    ensures
        run.generation == generation,
        run.phase == Phase::Dialing,
{
}

/// A dial is awaited while dialing for the first time or again, the end of the
/// socket while serving it, and the end of a pause while pausing; a run that is
/// over awaits nothing.
pub proof fn law_what_each_phase_awaits(phase: &Phase, event: SupervisorEvent, r: bool)
    requires
        call_ensures(Phase::is_awaiting, (phase, event), r),
    ensures
        r <==> {
            ||| (*phase is Dialing || *phase is Redialing) && (event is Opened
                || event is DialFailed)
            ||| *phase is Serving && event is SocketClosed
            ||| *phase is Backoff && event is BackoffElapsed
        },
{
}

/// No step changes the generation of the run or of the connection, or the task of
/// the connection, and none makes a context or changes its texts: at most the
/// first dial that fails drops it.
pub proof fn law_steps_keep_the_context(
    run: &mut Supervisor,
    owner: &mut ConnectionLifecycle,
    event: SupervisorEvent,
    step: SupervisorStep,
)
    requires
        old(run).phase.awaits(event),
        call_ensures(Supervisor::step, (run, owner, event), step),
    ensures
        final(run).generation == old(run).generation,
        final(owner).generation == old(owner).generation,
        final(owner).task == old(owner).task,
        super::same_ctx(final(owner).reconnect_ctx, old(owner).reconnect_ctx) || (
        final(owner).reconnect_ctx is None && old(run).phase is Dialing && event is DialFailed
            && old(owner).generation == old(run).generation),
{
    assert(final(owner)@.ctx is None || final(owner)@.ctx == old(owner)@.ctx);
}

/// An open socket of the current run makes the connection connected, with a new
/// and empty queue for sixty-four commands from which the socket is served. The
/// first one is told as connected and to whoever waits, a later one as
/// reconnected.
pub proof fn law_an_open_socket_is_served(
    run: &mut Supervisor,
    owner: &mut ConnectionLifecycle,
    step: SupervisorStep,
)
    requires
        old(run).phase is Dialing || old(run).phase is Redialing,
        old(owner).generation == old(run).generation,
        call_ensures(Supervisor::step, (run, owner, SupervisorEvent::Opened), step),
    ensures
        final(run).phase == Phase::Serving,
        final(owner).state == ConnectionState::Connected,
        final(owner).cmd_tx matches Some(queue) && queue@.capacity == 64 && queue@.offers.len()
            == 0 && queue@.taken == 0 && !queue@.closed && (step.action matches SupervisorAction::Serve {
            commands,
        } && queue::queue_made(64, queue@.sender, commands)),
        super::same_ctx(final(owner).reconnect_ctx, old(owner).reconnect_ctx),
        old(run).phase is Dialing ==> step.event == Some(RelayEvent::Connected) && step.ready
            == Some(ReadyReport::Connected),
        old(run).phase is Redialing ==> step.event == Some(RelayEvent::Reconnected)
            && step.ready is None,
{
    assert(final(owner)@.queue is Some && final(owner)@.ctx == old(owner)@.ctx);
}

/// A failed first dial of the current run ends the run and the connection, and is
/// told to everybody.
pub proof fn law_a_failed_first_dial_ends_the_connection(
    run: &mut Supervisor,
    owner: &mut ConnectionLifecycle,
    step: SupervisorStep,
)
    requires
        old(run).phase is Dialing,
        old(owner).generation == old(run).generation,
        call_ensures(Supervisor::step, (run, owner, SupervisorEvent::DialFailed), step),
    ensures
        final(run).phase == Phase::Stopped,
        final(owner).state == ConnectionState::Disconnected,
        final(owner).cmd_tx is None,
        final(owner).reconnect_ctx is None,
        step.event == Some(RelayEvent::Disconnected),
        step.ready == Some(ReadyReport::DialFailed),
        step.action is Stop,
{
    assert(final(owner)@.queue is None && final(owner)@.ctx is None);
}

/// A failed reconnect attempt, of whatever run, is followed by a pause of twice
/// the length of the last one, at most thirty seconds; nothing else happens.
pub proof fn law_a_failed_attempt_doubles_the_pause(
    run: &mut Supervisor,
    owner: &mut ConnectionLifecycle,
    secs: u64,
    step: SupervisorStep,
)
    requires
        old(run).phase == (Phase::Redialing { secs }),
        call_ensures(Supervisor::step, (run, owner, SupervisorEvent::DialFailed), step),
    ensures
        same_connection(*final(owner), *old(owner)),
        step.event is None,
        step.ready is None,
        step.action matches SupervisorAction::Sleep { secs: pause } && final(run).phase == (
        Phase::Backoff { secs: pause }) && pause == if 2 * secs < 30 {
            2 * secs
        } else {
            30
        },
{
    assert(final(owner)@ == old(owner)@);
}

/// The loss of the socket of the current run drops its queue, leaves the
/// connection reconnecting with its context, and is followed by a pause of two
/// seconds; nothing is told.
pub proof fn law_a_lost_socket_is_followed_by_a_pause(
    run: &mut Supervisor,
    owner: &mut ConnectionLifecycle,
    step: SupervisorStep,
)
    requires
        old(run).phase is Serving,
        old(owner).generation == old(run).generation,
        call_ensures(Supervisor::step, (run, owner, SupervisorEvent::SocketClosed), step),
    ensures
        final(owner).state == ConnectionState::Reconnecting,
        final(owner).cmd_tx is None,
        super::same_ctx(final(owner).reconnect_ctx, old(owner).reconnect_ctx),
        final(run).phase == (Phase::Backoff { secs: 2 }),
        step.action == (SupervisorAction::Sleep { secs: 2 }),
        step.event is None,
        step.ready is None,
{
    assert(final(owner)@.queue is None && final(owner)@.ctx == old(owner)@.ctx);
}

/// Whenever a pause of the current run ends, however long it was and however many
/// attempts failed before, the connection's own URL is dialed, and exactly if an
/// account token is known the dial has an authentication to write first: that of
/// a desktop with this token and this device name. The length of the pause is
/// kept for the next one, and nothing else happens. A run without a context ends.
pub proof fn law_every_redial_repeats_the_authentication(
    run: &mut Supervisor,
    owner: &mut ConnectionLifecycle,
    secs: u64,
    step: SupervisorStep,
)
    requires
        old(run).phase == (Phase::Backoff { secs }),
        old(owner).generation == old(run).generation,
        call_ensures(Supervisor::step, (run, owner, SupervisorEvent::BackoffElapsed), step),
    ensures
        same_connection(*final(owner), *old(owner)),
        step.event is None,
        step.ready is None,
        match old(owner).reconnect_ctx {
            None => step.action is Stop && final(run).phase == Phase::Stopped,
            Some(ctx) => {
                &&& final(run).phase == (Phase::Redialing { secs })
                &&& step.action matches SupervisorAction::Redial { ws_url, auth }
                &&& ws_url@ == ctx.ws_url@
                &&& ctx.token@.len() == 0 ==> auth is None
                &&& ctx.token@.len() > 0 ==> (auth matches Some(
                    RelayMessage::AuthConnect { token, device_name, device_kind },
                ) && token@ == ctx.token@ && device_name@ == ctx.device_name@ && device_kind@
                    == "desktop"@)
            },
        },
{
    assert(final(owner)@ == old(owner)@);
}

/// A run that is not of the connection's generation changes nothing of it and
/// tells nobody but the connect that still waits for it, which is told of a
/// failed dial only. It ends, unless it has to pause after a failed attempt.
pub proof fn law_a_superseded_run_ends(
    run: &mut Supervisor,
    owner: &mut ConnectionLifecycle,
    event: SupervisorEvent,
    step: SupervisorStep,
)
    requires
        old(run).phase.awaits(event),
        old(owner).generation != old(run).generation,
        call_ensures(Supervisor::step, (run, owner, event), step),
    ensures
        same_connection(*final(owner), *old(owner)),
        step.event is None,
        step.ready == if old(run).phase is Dialing && event is DialFailed {
            Some(ReadyReport::DialFailed)
        } else {
            None
        },
        !(old(run).phase is Redialing && event is DialFailed) ==> step.action is Stop
            && final(run).phase == Phase::Stopped,
        old(run).phase is Redialing && event is DialFailed ==> step.action is Sleep
            && final(run).phase is Backoff,
{
    assert(final(owner)@ == old(owner)@);
}

/// Whether a step of some run, or a command that was sent, led from `before` to
/// `after`.
pub open spec fn runs_on(before: LifecycleView, after: LifecycleView) -> bool {
    ||| exists|run: Supervisor, event: SupervisorEvent, next: Supervisor, step: SupervisorStep|
        run.phase.awaits(event) && #[trigger] run.stepped(before, event, next, after, step)
    ||| exists|msg: RelayMessage, r: Result<(), RelayError>| #[trigger]
        before.enqueued(msg, after, r)
}

/// Whether one thing that can happen to a connection until the next connect or
/// disconnect led from `before` to `after`: a step of some run, a command or an
/// authentication.
pub open spec fn lives_on(before: LifecycleView, after: LifecycleView) -> bool {
    ||| runs_on(before, after)
    ||| exists|token: Seq<char>, device_name: Seq<char>, r: Result<(), RelayError>| #[trigger]
        client::authentication_queued(before, token, device_name, after, r)
}

/// However long a connection lives and whatever its runs and its users do, its
/// generation stays, and as long as it has a context this holds the same URL.
pub proof fn law_a_connection_keeps_its_url(states: Seq<LifecycleView>)
    requires
        states.len() > 0,
        forall|i: int, j: int|
            0 <= i && j == i + 1 && j < states.len() ==> lives_on(
                #[trigger] states[i],
                #[trigger] states[j],
            ),
    ensures
        states.last().generation == states[0].generation,
        states.last().ctx matches Some(ctx) ==> states[0].ctx is Some && ctx.ws_url
            == states[0].ctx->0.ws_url,
    decreases states.len(),
{
    if states.len() > 1 {
        let earlier = states.drop_last();
        assert forall|i: int, j: int| 0 <= i && j == i + 1 && j < earlier.len() implies lives_on(
            #[trigger] earlier[i],
            #[trigger] earlier[j],
        ) by {
            assert(earlier[i] == states[i] && earlier[j] == states[j]);
        }
        law_a_connection_keeps_its_url(earlier);
        let n = states.len() as int;
        assert(lives_on(states[n - 2], states[n - 1]));
        assert(earlier.last() == states[n - 2]);
    }
}

/// Until the next authentication a connection keeps its account as well.
pub proof fn law_a_connection_keeps_its_account(states: Seq<LifecycleView>)
    requires
        states.len() > 0,
        forall|i: int, j: int|
            0 <= i && j == i + 1 && j < states.len() ==> runs_on(
                #[trigger] states[i],
                #[trigger] states[j],
            ),
    ensures
        states.last().generation == states[0].generation,
        states.last().ctx is None || states.last().ctx == states[0].ctx,
    decreases states.len(),
{
    if states.len() > 1 {
        let earlier = states.drop_last();
        assert forall|i: int, j: int| 0 <= i && j == i + 1 && j < earlier.len() implies runs_on(
            #[trigger] earlier[i],
            #[trigger] earlier[j],
        ) by {
            assert(earlier[i] == states[i] && earlier[j] == states[j]);
        }
        law_a_connection_keeps_its_account(earlier);
        let n = states.len() as int;
        assert(runs_on(states[n - 2], states[n - 1]));
        assert(earlier.last() == states[n - 2]);
    }
}

/// After a connect to `ws_url`, whatever happens in between, every redial of its
/// run dials `ws_url`.
pub proof fn law_a_redial_dials_the_url_of_its_connect(
    client: &mut client::RelayClient,
    ws_url: &str,
    start: client::ConnectStart,
    states: Seq<LifecycleView>,
    run: Supervisor,
    next: Supervisor,
    owner_after: LifecycleView,
    step: SupervisorStep,
)
    requires
        old(client).lifecycle.generation < u64::MAX,
        call_ensures(client::RelayClient::connect, (client, ws_url), start),
        states.len() > 0,
        states[0] == final(client).lifecycle@,
        forall|i: int, j: int|
            0 <= i && j == i + 1 && j < states.len() ==> lives_on(
                #[trigger] states[i],
                #[trigger] states[j],
            ),
        run.generation == start.supervisor.generation,
        run.phase is Backoff,
        run.stepped(states.last(), SupervisorEvent::BackoffElapsed, next, owner_after, step),
    ensures
        step.action matches SupervisorAction::Redial { ws_url: url, auth } ==> url@ == ws_url@,
        states.last().ctx is Some ==> step.action is Redial,
{
    super::law_connect_replaces_the_connection(client, ws_url, start);
    law_a_connection_keeps_its_url(states);
}

/// Once an account was accepted on a connection, every redial of the connection
/// until the next connect, disconnect or authentication writes the authentication
/// of that account before anything else, whatever happens in between and however
/// many attempts fail.
pub proof fn law_an_accepted_account_is_on_every_redial(
    client: &mut client::RelayClient,
    token: &str,
    device_name: &str,
    r: Result<(), RelayError>,
    states: Seq<LifecycleView>,
    run: Supervisor,
    next: Supervisor,
    owner_after: LifecycleView,
    step: SupervisorStep,
)
    requires
        call_ensures(client::RelayClient::connect_authenticated, (client, token, device_name), r),
        r is Ok,
        token@.len() > 0,
        states.len() > 0,
        states[0] == final(client).lifecycle@,
        forall|i: int, j: int|
            0 <= i && j == i + 1 && j < states.len() ==> runs_on(
                #[trigger] states[i],
                #[trigger] states[j],
            ),
        run.generation == old(client).lifecycle.generation,
        run.phase is Backoff,
        run.stepped(states.last(), SupervisorEvent::BackoffElapsed, next, owner_after, step),
    ensures
        states.last().ctx is Some ==> {
            &&& step.action matches SupervisorAction::Redial { ws_url, auth }
            &&& ws_url@ == old(client).lifecycle.reconnect_ctx->0.ws_url@
            &&& auth matches Some(
                RelayMessage::AuthConnect { token: t, device_name: n, device_kind: k },
            )
            &&& t@ == token@
            &&& n@ == device_name@
            &&& k@ == "desktop"@
        },
{
    super::law_authentication_names_the_account(client, token, device_name, r);
    law_a_connection_keeps_its_account(states);
    let msg = choose|msg: RelayMessage| #[trigger]
        super::one_command(
            old(client).lifecycle,
            msg,
            super::with_ctx_of(final(client).lifecycle, old(client).lifecycle),
            r,
        );
    assert(final(client).lifecycle.generation == old(client).lifecycle.generation);
    assert(states[0].ctx is Some <==> final(client).lifecycle.reconnect_ctx is Some);
}

} // verus!
