//! The supervisor of one connection: dials, serves the socket, and after a loss
//! dials again with growing pauses until it succeeds or is superseded.
//!
//! The supervisor decides; the program around it performs the action that it
//! asks for and hands back what came of it.
use crate::lifecycle::{ConnectionLifecycle, ConnectionState, LifecycleView};
use crate::message::{RelayEvent, RelayMessage};
use crate::queue;
use crate::queue::{CommandQueue, RELAY_COMMAND_QUEUE_CAPACITY};
use tokio::sync::mpsc;
use vstd::prelude::*;

verus! {

/// The pause before the first reconnect attempt, in seconds.
pub const FIRST_BACKOFF_SECS: u64 = 2;

/// The longest pause between two reconnect attempts, in seconds.
pub const MAX_BACKOFF_SECS: u64 = 30;

/// What a supervisor waits for.
#[derive(Debug, Clone, Copy, PartialEq, Eq)]
pub enum Phase {
    /// The first dial.
    Dialing,
    /// The end of the open socket.
    Serving,
    /// The end of the pause before the next dial.
    Backoff { secs: u64 },
    /// A dial after a pause of `secs`.
    Redialing { secs: u64 },
    /// Nothing: the run is over.
    Stopped,
}

/// What came of the action that the supervisor asked for.
#[derive(Debug, Clone, Copy, PartialEq, Eq)]
pub enum SupervisorEvent {
    /// The dial, and the authentication it had to write, succeeded.
    Opened,
    /// The dial, or the authentication it had to write, failed.
    DialFailed,
    /// The open socket ended.
    SocketClosed,
    /// The pause is over.
    BackoffElapsed,
}

/// What the supervisor asks for next.
#[derive(Debug)]
pub enum SupervisorAction {
    /// Serve the open socket with the commands of this queue until it ends.
    Serve { commands: mpsc::Receiver<RelayMessage> },
    /// Pause.
    Sleep { secs: u64 },
    /// Dial, and write the authentication, if any, before anything else.
    Redial { ws_url: String, auth: Option<RelayMessage> },
    /// End the run.
    Stop,
}

/// What whoever waits for the connection is told.
#[derive(Debug, Clone, Copy, PartialEq, Eq)]
pub enum ReadyReport {
    Connected,
    DialFailed,
}

/// One decision of the supervisor.
#[derive(Debug)]
pub struct SupervisorStep {
    /// The event to emit.
    pub event: Option<RelayEvent>,
    /// The verdict for whoever waits for the connection.
    pub ready: Option<ReadyReport>,
    pub action: SupervisorAction,
}

/// The supervisor of the run `generation`.
#[derive(Debug)]
pub struct Supervisor {
    pub generation: u64,
    pub phase: Phase,
}

/// The pause after a failed attempt that followed a pause of `secs`.
pub open spec fn next_backoff(secs: int) -> int {
    if 2 * secs < MAX_BACKOFF_SECS {
        2 * secs
    } else {
        MAX_BACKOFF_SECS as int
    }
}

/// The pause before the attempt that follows `failures` failed ones.
pub open spec fn backoff_after(failures: nat) -> int
    decreases failures,
{
    if failures == 0 {
        FIRST_BACKOFF_SECS as int
    } else {
        next_backoff(backoff_after((failures - 1) as nat))
    }
}

impl Phase {
    /// Whether an event answers what the supervisor waits for.
    pub open spec fn awaits(self, event: SupervisorEvent) -> bool {
        match event {
            SupervisorEvent::Opened => self is Dialing || self is Redialing,
            SupervisorEvent::DialFailed => self is Dialing || self is Redialing,
            SupervisorEvent::SocketClosed => self is Serving,
            SupervisorEvent::BackoffElapsed => self is Backoff,
        }
    }

    /// Tests whether an event answers what the supervisor waits for.
    pub fn is_awaiting(&self, event: SupervisorEvent) -> (r: bool)
        ensures
            r == self.awaits(event),
    {
        match event {
            SupervisorEvent::Opened | SupervisorEvent::DialFailed => matches!(
                self,
                Phase::Dialing | Phase::Redialing { .. }
            ),
            SupervisorEvent::SocketClosed => matches!(self, Phase::Serving),
            SupervisorEvent::BackoffElapsed => matches!(self, Phase::Backoff { .. }),
        }
    }

    /// The state of a connection whose current run is in this phase.
    pub open spec fn state(self) -> ConnectionState {
        match self {
            Phase::Dialing => ConnectionState::Connecting,
            Phase::Serving => ConnectionState::Connected,
            Phase::Backoff { .. } => ConnectionState::Reconnecting,
            Phase::Redialing { .. } => ConnectionState::Reconnecting,
            Phase::Stopped => ConnectionState::Disconnected,
        }
    }
}

impl SupervisorStep {
    /// The step ends the run and says nothing to anybody.
    pub open spec fn stops_silently(self) -> bool {
        self.event is None && self.ready is None && self.action is Stop
    }
}

impl Supervisor {
    /// Whether the run is the current one of the connection.
    pub open spec fn is_current(self, owner: LifecycleView) -> bool {
        owner.generation == self.generation
    }

    /// What holds between a supervisor and the connection: the run is the
    /// connection's current one or an earlier one, and the state of the
    /// connection is that of the current run's phase.
    pub open spec fn supervises(self, owner: LifecycleView) -> bool {
        &&& self.generation <= owner.generation
        &&& self.is_current(owner) ==> owner.state == self.phase.state()
    }

    /// The same run in another phase.
    pub open spec fn in_phase(self, phase: Phase) -> Supervisor {
        Supervisor { phase, ..self }
    }

    /// The socket is open: the connection takes commands from a new queue, which
    /// nothing was offered to yet and whose other half the socket is served with. The first socket of the run is
    /// reported to whoever waits for it.
    pub open spec fn opened(
        self,
        owner: LifecycleView,
        after: Supervisor,
        owner_after: LifecycleView,
        step: SupervisorStep,
    ) -> bool {
        if !self.is_current(owner) {
            &&& owner_after == owner
            &&& after == self.in_phase(Phase::Stopped)
            &&& step.stops_silently()
        } else {
            &&& owner_after.queue is Some
            &&& owner_after == owner.online(owner_after.queue->0)
            &&& owner_after.queue->0.capacity == RELAY_COMMAND_QUEUE_CAPACITY
            &&& owner_after.queue->0.offers.len() == 0
            &&& owner_after.queue->0.taken == 0
            &&& !owner_after.queue->0.closed
            &&& after == self.in_phase(Phase::Serving)
            &&& step.action matches SupervisorAction::Serve { commands }
            &&& queue::queue_made(
                RELAY_COMMAND_QUEUE_CAPACITY as nat,
                owner_after.queue->0.sender,
                commands,
            )
            &&& if self.phase is Dialing {
                &&& step.event == Some(RelayEvent::Connected)
                &&& step.ready == Some(ReadyReport::Connected)
            } else {
                &&& step.event == Some(RelayEvent::Reconnected)
                &&& step.ready is None
            }
        }
    }

    /// A dial failed: the first one ends the run, a later one is tried again
    /// after a longer pause.
    pub open spec fn dial_failed(
        self,
        owner: LifecycleView,
        after: Supervisor,
        owner_after: LifecycleView,
        step: SupervisorStep,
    ) -> bool {
        match self.phase {
            Phase::Redialing { secs } => {
                &&& owner_after == owner
                &&& step.event is None
                &&& step.ready is None
                &&& step.action matches SupervisorAction::Sleep { secs: pause }
                &&& pause == next_backoff(secs as int)
                &&& after == self.in_phase(Phase::Backoff { secs: pause })
            },
            _ => {
                &&& after == self.in_phase(Phase::Stopped)
                &&& step.ready == Some(ReadyReport::DialFailed)
                &&& step.action is Stop
                &&& if self.is_current(owner) {
                    &&& owner_after == owner.dial_failed()
                    &&& step.event == Some(RelayEvent::Disconnected)
                } else {
                    &&& owner_after == owner
                    &&& step.event is None
                }
            },
        }
    }

    /// The socket is gone: the connection drops the queue with all commands in
    /// it and the supervisor pauses before it dials again.
    pub open spec fn socket_closed(
        self,
        owner: LifecycleView,
        after: Supervisor,
        owner_after: LifecycleView,
        step: SupervisorStep,
    ) -> bool {
        if !self.is_current(owner) {
            &&& owner_after == owner
            &&& after == self.in_phase(Phase::Stopped)
            &&& step.stops_silently()
        } else {
            &&& owner_after == owner.offline()
            &&& after == self.in_phase(Phase::Backoff { secs: FIRST_BACKOFF_SECS })
            &&& step.event is None
            &&& step.ready is None
            &&& step.action matches SupervisorAction::Sleep { secs }
            &&& secs == FIRST_BACKOFF_SECS
        }
    }

    /// The pause is over: dial again, with the account authentication in front
    /// if an account is known.
    pub open spec fn backoff_elapsed(
        self,
        owner: LifecycleView,
        after: Supervisor,
        owner_after: LifecycleView,
        step: SupervisorStep,
    ) -> bool {
        &&& owner_after == owner
        &&& if !self.is_current(owner) || owner.ctx is None {
            &&& after == self.in_phase(Phase::Stopped)
            &&& step.stops_silently()
        } else {
            &&& after == self.in_phase(Phase::Redialing { secs: self.phase->Backoff_secs })
            &&& step.event is None
            &&& step.ready is None
            &&& step.action matches SupervisorAction::Redial { ws_url, auth }
            &&& ws_url@ == owner.ctx->0.ws_url
            &&& auth is Some <==> owner.ctx->0.token.len() > 0
            &&& auth matches Some(msg) ==> msg.authenticates(
                owner.ctx->0.token,
                owner.ctx->0.device_name,
            )
        }
    }

    /// Whether the supervisor answers `event` with `step`.
    pub open spec fn stepped(
        self,
        owner: LifecycleView,
        event: SupervisorEvent,
        after: Supervisor,
        owner_after: LifecycleView,
        step: SupervisorStep,
    ) -> bool {
        match event {
            SupervisorEvent::Opened => self.opened(owner, after, owner_after, step),
            SupervisorEvent::DialFailed => self.dial_failed(owner, after, owner_after, step),
            SupervisorEvent::SocketClosed => self.socket_closed(owner, after, owner_after, step),
            SupervisorEvent::BackoffElapsed => self.backoff_elapsed(
                owner,
                after,
                owner_after,
                step,
            ),
        }
    }

    /// The supervisor of a new run, which waits for its first dial.
    pub fn new(generation: u64) -> (r: Supervisor)
        ensures
            r == (Supervisor { generation, phase: Phase::Dialing }),
    {
        Supervisor { generation, phase: Phase::Dialing }
    }

    /// Decides what follows from `event`.
    pub fn step(&mut self, owner: &mut ConnectionLifecycle, event: SupervisorEvent) -> (step:
        SupervisorStep)
        requires
            old(self).phase.awaits(event),
        ensures
            old(self).stepped(old(owner)@, event, *final(self), final(owner)@, step),
    {
        match event {
            SupervisorEvent::Opened => self.on_opened(owner),
            SupervisorEvent::DialFailed => self.on_dial_failed(owner),
            SupervisorEvent::SocketClosed => self.on_socket_closed(owner),
            SupervisorEvent::BackoffElapsed => self.on_backoff_elapsed(owner),
        }
    }

    fn stop(&mut self) -> (step: SupervisorStep)
        ensures
            *final(self) == old(self).in_phase(Phase::Stopped),
            step.stops_silently(),
    {
        self.phase = Phase::Stopped;
        SupervisorStep { event: None, ready: None, action: SupervisorAction::Stop }
    }

    fn pause(&mut self, secs: u64) -> (step: SupervisorStep)
        ensures
            *final(self) == old(self).in_phase(Phase::Backoff { secs }),
            step == (SupervisorStep {
                event: None,
                ready: None,
                action: SupervisorAction::Sleep { secs },
            }),
    {
        self.phase = Phase::Backoff { secs };
        SupervisorStep { event: None, ready: None, action: SupervisorAction::Sleep { secs } }
    }

    fn on_opened(&mut self, owner: &mut ConnectionLifecycle) -> (step: SupervisorStep)
        ensures
            old(self).opened(old(owner)@, *final(self), final(owner)@, step),
    {
        let (cmd_tx, commands) = CommandQueue::with_capacity(RELAY_COMMAND_QUEUE_CAPACITY);
        if owner.generation != self.generation {
            return self.stop();
        }
        owner.state = ConnectionState::Connected;
        owner.cmd_tx = Some(cmd_tx);
        let action: SupervisorAction = SupervisorAction::Serve { commands };
        let first: bool = matches!(self.phase, Phase::Dialing);
        self.phase = Phase::Serving;
        if first {
            SupervisorStep {
                event: Some(RelayEvent::Connected),
                ready: Some(ReadyReport::Connected),
                action,
            }
        } else {
            SupervisorStep { event: Some(RelayEvent::Reconnected), ready: None, action }
        }
    }

    fn on_dial_failed(&mut self, owner: &mut ConnectionLifecycle) -> (step: SupervisorStep)
        ensures
            old(self).dial_failed(old(owner)@, *final(self), final(owner)@, step),
    {
        if let Phase::Redialing { secs } = self.phase {
            let pause: u64 = if secs < MAX_BACKOFF_SECS / 2 {
                2 * secs
            } else {
                MAX_BACKOFF_SECS
            };
            return self.pause(pause);
        }
        self.phase = Phase::Stopped;
        let event: Option<RelayEvent> = if owner.generation == self.generation {
            owner.state = ConnectionState::Disconnected;
            owner.cmd_tx = None;
            owner.reconnect_ctx = None;
            Some(RelayEvent::Disconnected)
        } else {
            None
        };
        SupervisorStep {
            event,
            ready: Some(ReadyReport::DialFailed),
            action: SupervisorAction::Stop,
        }
    }

    fn on_socket_closed(&mut self, owner: &mut ConnectionLifecycle) -> (step: SupervisorStep)
        ensures
            old(self).socket_closed(old(owner)@, *final(self), final(owner)@, step),
    {
        if owner.generation != self.generation {
            return self.stop();
        }
        owner.state = ConnectionState::Reconnecting;
        owner.cmd_tx = None;
        self.pause(FIRST_BACKOFF_SECS)
    }

    fn on_backoff_elapsed(&mut self, owner: &ConnectionLifecycle) -> (step: SupervisorStep)
        requires
            old(self).phase is Backoff,
        ensures
            old(self).backoff_elapsed(owner@, *final(self), owner@, step),
    {
        if owner.generation != self.generation {
            return self.stop();
        }
        let secs: u64 = match self.phase {
            Phase::Backoff { secs } => secs,
            _ => FIRST_BACKOFF_SECS,
        };
        match &owner.reconnect_ctx {
            None => self.stop(),
            Some(ctx) => {
                let auth: Option<RelayMessage> = if ctx.token.as_str().is_empty() {
                    None
                } else {
                    Some(
                        RelayMessage::auth_connect(ctx.token.as_str(), ctx.device_name.as_str()),
                    )
                };
                self.phase = Phase::Redialing { secs };
                SupervisorStep {
                    event: None,
                    ready: None,
                    action: SupervisorAction::Redial { ws_url: ctx.ws_url.clone(), auth },
                }
            },
        }
    }
}

} // verus!
