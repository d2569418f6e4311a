//! The state of the relay connection and what each operation does to it.
//!
//! One owner controls the connection. A generation fences late completion:
//! every replacement of the connection raises it, and a run of an earlier
//! generation changes nothing any more.
use crate::error::RelayError;
use crate::message::{RelayEvent, RelayMessage};
use crate::queue::{CommandQueue, QueueReply, QueueView};
use tokio::task::JoinHandle;
use vstd::prelude::*;

verus! {

#[derive(Debug, Clone, Copy, PartialEq, Eq, Structural)]
pub enum ConnectionState {
    Disconnected,
    Connecting,
    Connected,
    Reconnecting,
}

/// What a reconnect needs to know.
#[derive(Debug)]
pub struct ReconnectCtx {
    pub ws_url: String,
    /// Account token for authenticating again; empty before the first one.
    pub token: String,
    /// Device name for authenticating again.
    pub device_name: String,
}

/// The texts of a reconnect context.
pub struct ReconnectView {
    pub ws_url: Seq<char>,
    pub token: Seq<char>,
    pub device_name: Seq<char>,
}

impl View for ReconnectCtx {
    type V = ReconnectView;

    open spec fn view(&self) -> ReconnectView {
        ReconnectView { ws_url: self.ws_url@, token: self.token@, device_name: self.device_name@ }
    }
}

/// The connection as its owner keeps it.
pub struct ConnectionLifecycle {
    pub generation: u64,
    pub state: ConnectionState,
    pub task: Option<JoinHandle<()>>,
    pub cmd_tx: Option<CommandQueue>,
    pub reconnect_ctx: Option<ReconnectCtx>,
}

/// The connection, with the command queue and the reconnect context by what is
/// known of them.
pub struct LifecycleView {
    pub generation: u64,
    pub state: ConnectionState,
    pub task: Option<JoinHandle<()>>,
    pub queue: Option<QueueView>,
    pub ctx: Option<ReconnectView>,
}

impl View for ConnectionLifecycle {
    type V = LifecycleView;

    open spec fn view(&self) -> LifecycleView {
        LifecycleView {
            generation: self.generation,
            state: self.state,
            task: self.task,
            queue: match self.cmd_tx {
                Some(queue) => Some(queue@),
                None => None,
            },
            ctx: match self.reconnect_ctx {
                Some(ctx) => Some(ctx@),
                None => None,
            },
        }
    }
}

impl LifecycleView {
    /// What holds of every connection between two operations: there is a
    /// command queue exactly while connected, with no more commands waiting than
    /// it holds, and a reconnect context exactly while there is a connection to
    /// keep.
    pub open spec fn wf(self) -> bool {
        &&& self.queue is Some <==> self.state == ConnectionState::Connected
        &&& self.queue matches Some(queue) ==> queue.wf()
        &&& self.ctx is Some <==> self.state != ConnectionState::Disconnected
    }

    /// No connection was ever asked for.
    pub open spec fn initial() -> LifecycleView {
        LifecycleView {
            generation: 0,
            state: ConnectionState::Disconnected,
            task: None,
            queue: None,
            ctx: None,
        }
    }

    /// A new connection to `ws_url` replaces whatever there was.
    pub open spec fn connecting(self, ws_url: Seq<char>) -> LifecycleView {
        LifecycleView {
            generation: (self.generation + 1) as u64,
            state: ConnectionState::Connecting,
            task: None,
            queue: None,
            ctx: Some(
                ReconnectView {
                    ws_url,
                    token: Seq::<char>::empty(),
                    device_name: Seq::<char>::empty(),
                },
            ),
        }
    }

    /// The connection is given up for good.
    pub open spec fn retired(self) -> LifecycleView {
        LifecycleView {
            generation: (self.generation + 1) as u64,
            state: ConnectionState::Disconnected,
            task: None,
            queue: None,
            ctx: None,
        }
    }

    /// The first dial of the connection failed.
    pub open spec fn dial_failed(self) -> LifecycleView {
        LifecycleView { state: ConnectionState::Disconnected, queue: None, ctx: None, ..self }
    }

    /// A socket is open and takes its commands from `queue`.
    pub open spec fn online(self, queue: QueueView) -> LifecycleView {
        LifecycleView { state: ConnectionState::Connected, queue: Some(queue), ..self }
    }

    /// The socket is gone, and its commands with it.
    pub open spec fn offline(self) -> LifecycleView {
        LifecycleView { state: ConnectionState::Reconnecting, queue: None, ..self }
    }

    /// The account is remembered for the next reconnect.
    pub open spec fn authenticated(self, token: Seq<char>, device_name: Seq<char>) -> LifecycleView {
        LifecycleView {
            ctx: match self.ctx {
                Some(ctx) => Some(ReconnectView { token, device_name, ..ctx }),
                None => None,
            },
            ..self
        }
    }

    /// Whether a command can be handed to a queue at all.
    pub open spec fn accepts_commands(self) -> bool {
        self.state == ConnectionState::Connected && self.queue is Some
    }

    /// The connection when its queue finds the other end to have taken so many
    /// commands, and to listen or not.
    pub open spec fn found(self, taken: nat, closed: bool) -> LifecycleView {
        LifecycleView {
            queue: match self.queue {
                Some(queue) => Some(queue.found(taken, closed)),
                None => None,
            },
            ..self
        }
    }

    /// What enqueuing a command returns: without a connected transport the
    /// refusal, and otherwise what the queue answers.
    pub open spec fn enqueue_result(self) -> Result<(), RelayError> {
        if self.accepts_commands() {
            self.queue->0.reply().outcome()
        } else {
            Err(RelayError::NotConnected)
        }
    }

    /// The connection after enqueuing `msg`: without a connected transport nothing
    /// is offered to any queue, and otherwise `msg` alone is.
    pub open spec fn after_enqueue(self, msg: RelayMessage) -> LifecycleView {
        if self.accepts_commands() {
            LifecycleView { queue: Some(self.queue->0.offered(msg)), ..self }
        } else {
            self
        }
    }

    /// Whether enqueuing `msg` may lead to `after` and return `r`. How far the
    /// other end of the queue is found to be is not for this side to say; all else
    /// follows from it.
    pub open spec fn enqueued(
        self,
        msg: RelayMessage,
        after: LifecycleView,
        r: Result<(), RelayError>,
    ) -> bool {
        if self.accepts_commands() {
            let found = self.found(after.queue->0.taken, after.queue->0.closed);
            &&& self.queue->0.may_find(after.queue->0.taken, after.queue->0.closed)
            &&& after == found.after_enqueue(msg)
            &&& r == found.enqueue_result()
        } else {
            &&& after == self.after_enqueue(msg)
            &&& r == self.enqueue_result()
        }
    }

    /// The commands that the present queue ever accepted, in order.
    pub open spec fn accepted(self) -> Seq<RelayMessage> {
        match self.queue {
            Some(queue) => queue.accepted(),
            None => Seq::empty(),
        }
    }

    /// Whether an account token is known that authenticates requests.
    pub open spec fn is_authenticated(self) -> bool {
        self.ctx matches Some(ctx) && ctx.token.len() > 0
    }

    /// What an inbound message of the run `generation` is delivered as.
    pub open spec fn dispatched(self, generation: u64, msg: RelayMessage) -> Option<RelayEvent> {
        if self.generation == generation {
            msg.event()
        } else {
            None
        }
    }
}

impl ReconnectCtx {
    /// The context of a connection that no account was named for.
    pub fn for_url(ws_url: &str) -> (r: ReconnectCtx)
        ensures
            r@ == (ReconnectView {
                ws_url: ws_url@,
                token: Seq::<char>::empty(),
                device_name: Seq::<char>::empty(),
            }),
    {
        ReconnectCtx { ws_url: ws_url.to_string(), token: String::new(), device_name: String::new() }
    }
}

impl ConnectionLifecycle {
    pub fn new() -> (r: ConnectionLifecycle)
        ensures
            r@ == LifecycleView::initial(),
    {
        ConnectionLifecycle {
            generation: 0,
            state: ConnectionState::Disconnected,
            task: None,
            cmd_tx: None,
            reconnect_ctx: None,
        }
    }

    /// Starts a new generation for a connection to `ws_url`. Returns the task of
    /// the connection it replaces, to be aborted.
    pub fn begin(&mut self, ws_url: &str) -> (retired: Option<JoinHandle<()>>)
        requires
            old(self).generation < u64::MAX,
        ensures
            final(self)@ == old(self)@.connecting(ws_url@),
            retired == old(self).task,
    {
        let retired: Option<JoinHandle<()>> = self.task.take();
        self.generation = self.generation + 1;
        self.state = ConnectionState::Connecting;
        self.cmd_tx = None;
        self.reconnect_ctx = Some(ReconnectCtx::for_url(ws_url));
        retired
    }

    /// Gives the connection up. Returns its task, to be aborted.
    pub fn retire(&mut self) -> (retired: Option<JoinHandle<()>>)
        requires
            old(self).generation < u64::MAX,
        ensures
            final(self)@ == old(self)@.retired(),
            retired == old(self).task,
    {
        self.generation = self.generation + 1;
        self.state = ConnectionState::Disconnected;
        self.cmd_tx = None;
        self.reconnect_ctx = None;
        self.task.take()
    }

    /// Hands a command to the connection's queue, without waiting.
    pub fn enqueue(&mut self, msg: RelayMessage) -> (r: Result<(), RelayError>)
        ensures
            old(self)@.enqueued(msg, final(self)@, r),
            r matches Err(error) ==> error.refuses_command(),
    {
        if self.state != ConnectionState::Connected {
            return Err(RelayError::NotConnected);
        }
        match self.cmd_tx.take() {
            None => Err(RelayError::NotConnected),
            Some(taken) => {
                let mut queue: CommandQueue = taken;
                let reply: QueueReply = queue.try_send(msg);
                self.cmd_tx = Some(queue);
                reply.into_result()
            },
        }
    }

    /// Remembers the account for the next reconnect.
    pub fn remember_account(&mut self, token: &str, device_name: &str)
        ensures
            final(self)@ == old(self)@.authenticated(token@, device_name@),
    {
        if let Some(ctx) = self.reconnect_ctx.take() {
            self.reconnect_ctx =
            Some(
                ReconnectCtx {
                    ws_url: ctx.ws_url,
                    token: token.to_string(),
                    device_name: device_name.to_string(),
                },
            );
        }
    }

    /// Decides what an inbound message of the run `generation` is delivered as.
    pub fn dispatch(&self, generation: u64, msg: RelayMessage) -> (r: Option<RelayEvent>)
        ensures
            r == self@.dispatched(generation, msg),
    {
        if self.generation != generation {
            return None;
        }
        msg.into_event()
    }
}

} // verus!
