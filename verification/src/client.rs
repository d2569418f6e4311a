//! The relay client: the operations of its users on the one connection it owns.
//!
//! Each operation runs under the owner's lock and does not wait. What has to be
//! awaited is handed to the caller: tasks to abort or join, a supervisor to run,
//! a request to post.
use crate::endpoint;
use crate::endpoint::checked_device_message_endpoint;
use crate::error::RelayError;
use crate::http_status;
use crate::http_status::status_text;
use crate::lifecycle::{ConnectionLifecycle, ConnectionState, LifecycleView};
use crate::message::{RelayEvent, RelayMessage};
use crate::relay_url;
use crate::supervisor::{Phase, Supervisor};
use tokio::task::JoinHandle;
use vstd::prelude::*;

verus! {

/// The status that accepts a device message: no content.
pub const DEVICE_MESSAGE_ACCEPTED: u16 = 204;

/// The relay client of one account device.
pub struct RelayClient {
    pub lifecycle: ConnectionLifecycle,
}

/// A connection that was started.
#[derive(Debug)]
pub struct ConnectStart {
    /// The task of the connection that was replaced, to be aborted.
    pub retired: Option<JoinHandle<()>>,
    /// The supervisor of the new connection, to be run.
    pub supervisor: Supervisor,
}

/// A connection that was ended.
#[derive(Debug)]
pub struct Disconnect {
    /// The task of the connection, to be aborted and joined.
    pub retired: Option<JoinHandle<()>>,
    /// The event to emit.
    pub event: RelayEvent,
}

/// A device message to post.
#[derive(Debug)]
pub struct DeviceMessageRequest {
    /// Where to post it.
    pub endpoint: String,
    /// The account token that authorises it.
    pub token: String,
    /// What to post.
    pub message: RelayMessage,
}

/// What becomes of a device message.
#[derive(Debug)]
pub enum DeviceMessageStep {
    /// Post it.
    Post { request: DeviceMessageRequest },
    /// It is refused.
    Refuse { error: RelayError },
    /// The relay URL or the endpoint outgrows the URL parser and type.
    Overflow,
}

impl DeviceMessageRequest {
    /// Whether the request posts this payload for the target under the account
    /// of the connection.
    pub open spec fn carries(
        self,
        account_token: Seq<char>,
        target: Seq<char>,
        correlation: Seq<char>,
        data: Seq<char>,
        number: Seq<char>,
    ) -> bool {
        &&& self.token@ == account_token
        &&& self.message matches RelayMessage::DeviceMessage {
            target_device_id,
            correlation_id,
            encrypted_data,
            nonce,
        }
        &&& target_device_id@ == target
        &&& correlation_id@ == correlation
        &&& encrypted_data@ == data
        &&& nonce@ == number
    }
}

/// What becomes of a device message on this connection.
pub open spec fn device_message_step(
    owner: LifecycleView,
    target: Seq<char>,
    correlation: Seq<char>,
    data: Seq<char>,
    number: Seq<char>,
    step: DeviceMessageStep,
) -> bool {
    if !owner.is_authenticated() {
        step matches DeviceMessageStep::Refuse { error } && error == RelayError::NotAuthenticated
    } else {
        let parsed = relay_url::url_parsed(owner.ctx->0.ws_url);
        &&& step is Overflow <==> !endpoint::endpoint_fits(owner.ctx->0.ws_url, target)
        &&& step matches DeviceMessageStep::Refuse { error } ==> endpoint::endpoint_outcome(
            parsed,
            target,
            Err(error),
        )
        &&& step matches DeviceMessageStep::Post { request } ==> endpoint::endpoint_outcome(
            parsed,
            target,
            Ok(request.endpoint),
        ) && request.carries(owner.ctx->0.token, target, correlation, data, number)
    }
}

/// The result of a connect that started the run `generation`, for the verdict of
/// that run, if it gave one, on the connection as it is by then.
pub open spec fn connect_outcome(
    owner: LifecycleView,
    generation: u64,
    ready: Option<Result<(), RelayError>>,
) -> Result<(), RelayError> {
    match ready {
        None => Err(RelayError::ConnectCancelled),
        Some(Err(error)) => Err(error),
        Some(Ok(_)) => if owner.generation == generation {
            Ok(())
        } else {
            Err(RelayError::ConnectSuperseded)
        },
    }
}

/// Whether authenticating may lead to `after` and return `r`: the authentication
/// of the account, and nothing else, is enqueued, and the account is remembered
/// exactly if it was accepted.
pub open spec fn authentication_queued(
    owner: LifecycleView,
    token: Seq<char>,
    device_name: Seq<char>,
    after: LifecycleView,
    r: Result<(), RelayError>,
) -> bool {
    exists|msg: RelayMessage, between: LifecycleView|
        msg.authenticates(token, device_name) && #[trigger] owner.enqueued(msg, between, r)
            && after == if r is Ok {
            between.authenticated(token, device_name)
        } else {
            between
        }
}

impl RelayClient {
    pub fn new() -> (r: RelayClient)
        ensures
            r.lifecycle@ == LifecycleView::initial(),
    {
        RelayClient { lifecycle: ConnectionLifecycle::new() }
    }

    pub fn connection_state(&self) -> (r: ConnectionState)
        ensures
            r == self.lifecycle.state,
    {
        self.lifecycle.state
    }

    /// Starts a connection to `ws_url` in the place of the one there is.
    pub fn connect(&mut self, ws_url: &str) -> (start: ConnectStart)
        requires
            old(self).lifecycle.generation < u64::MAX,
        ensures
            final(self).lifecycle@ == old(self).lifecycle@.connecting(ws_url@),
            start.retired == old(self).lifecycle.task,
            start.supervisor.generation == final(self).lifecycle.generation,
            start.supervisor.phase == Phase::Dialing,
    {
        let retired: Option<JoinHandle<()>> = self.lifecycle.begin(ws_url);
        ConnectStart { retired, supervisor: Supervisor::new(self.lifecycle.generation) }
    }

    /// Keeps the task that runs the connection's supervisor.
    pub fn adopt_task(&mut self, task: JoinHandle<()>)
        ensures
            final(self).lifecycle@ == (LifecycleView {
                task: Some(task),
                ..old(self).lifecycle@
            }),
    {
        self.lifecycle.task = Some(task);
    }

    /// The result of a connect that started the run `generation`; `ready` is the
    /// verdict of the run, and absent if it ended without one.
    pub fn connect_result(&self, generation: u64, ready: Option<Result<(), RelayError>>) -> (r:
        Result<(), RelayError>)
        ensures
            r == connect_outcome(self.lifecycle@, generation, ready),
    {
        match ready {
            None => Err(RelayError::ConnectCancelled),
            Some(Err(error)) => Err(error),
            Some(Ok(_)) => {
                if self.lifecycle.generation != generation {
                    Err(RelayError::ConnectSuperseded)
                } else {
                    Ok(())
                }
            },
        }
    }

    /// Queues a command on the connection.
    pub fn send(&mut self, msg: RelayMessage) -> (r: Result<(), RelayError>)
        ensures
            old(self).lifecycle@.enqueued(msg, final(self).lifecycle@, r),
            r matches Err(error) ==> error.refuses_command(),
    {
        self.lifecycle.enqueue(msg)
    }

    /// Queues the account authentication, and remembers the account for
    /// reconnects if it was queued.
    pub fn connect_authenticated(&mut self, token: &str, device_name: &str) -> (r: Result<
        (),
        RelayError,
    >)
        ensures
            authentication_queued(
                old(self).lifecycle@,
                token@,
                device_name@,
                final(self).lifecycle@,
                r,
            ),
            r matches Err(error) ==> error.refuses_command(),
    {
        let msg: RelayMessage = RelayMessage::auth_connect(token, device_name);
        let ghost queued = msg;
        let r: Result<(), RelayError> = self.lifecycle.enqueue(msg);
        let ghost between = self.lifecycle@;
        if r.is_ok() {
            self.lifecycle.remember_account(token, device_name);
        }
        assert(queued.authenticates(token@, device_name@) && old(self).lifecycle@.enqueued(
            queued,
            between,
            r,
        ));
        r
    }

    /// Decides what becomes of a device message. Payloads go over HTTP: the
    /// WebSocket is the receiving and control channel and takes no input of
    /// attachment size.
    pub fn send_device_message(
        &self,
        target_device_id: &str,
        correlation_id: &str,
        encrypted_data: &str,
        nonce: &str,
    ) -> (step: DeviceMessageStep)
        ensures
            device_message_step(
                self.lifecycle@,
                target_device_id@,
                correlation_id@,
                encrypted_data@,
                nonce@,
                step,
            ),
    {
        match &self.lifecycle.reconnect_ctx {
            None => DeviceMessageStep::Refuse { error: RelayError::NotAuthenticated },
            Some(ctx) => {
                if ctx.token.as_str().is_empty() {
                    return DeviceMessageStep::Refuse { error: RelayError::NotAuthenticated };
                }
                match checked_device_message_endpoint(ctx.ws_url.as_str(), target_device_id) {
                    None => DeviceMessageStep::Overflow,
                    Some(Err(error)) => DeviceMessageStep::Refuse { error },
                    Some(Ok(endpoint)) => DeviceMessageStep::Post {
                        request: DeviceMessageRequest {
                            endpoint,
                            token: ctx.token.clone(),
                            message: RelayMessage::DeviceMessage {
                                target_device_id: target_device_id.to_string(),
                                correlation_id: correlation_id.to_string(),
                                encrypted_data: encrypted_data.to_string(),
                                nonce: nonce.to_string(),
                            },
                        },
                    },
                }
            },
        }
    }

    /// Ends the connection and tells so.
    pub fn disconnect(&mut self) -> (end: Disconnect)
        requires
            old(self).lifecycle.generation < u64::MAX,
        ensures
            final(self).lifecycle@ == old(self).lifecycle@.retired(),
            end.retired == old(self).lifecycle.task,
            end.event == RelayEvent::Disconnected,
    {
        Disconnect { retired: self.lifecycle.retire(), event: RelayEvent::Disconnected }
    }

    /// Ends the connection when the client is dropped. Returns its task, to be
    /// aborted.
    pub fn release(&mut self) -> (retired: Option<JoinHandle<()>>)
        requires
            old(self).lifecycle.generation < u64::MAX,
        ensures
            final(self).lifecycle@ == old(self).lifecycle@.retired(),
            retired == old(self).lifecycle.task,
    {
        self.lifecycle.retire()
    }
}

/// The result of a posted device message, from the status of the response.
pub fn device_message_result(status: u16) -> (r: Result<(), RelayError>)
    requires
        100 <= status <= 999,
    ensures
        r is Ok <==> status == DEVICE_MESSAGE_ACCEPTED,
        r matches Err(error) ==> (error matches RelayError::Rejected { status: line } && line@
            == http_status::status_line(status)),
{
    if status != DEVICE_MESSAGE_ACCEPTED {
        Err(RelayError::Rejected { status: status_text(status) })
    } else {
        Ok(())
    }
}

} // verus!
