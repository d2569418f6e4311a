//! Messages of the relay protocol and the events that the client emits.
use vstd::prelude::*;

verus! {

/// The device kind that every relay WebSocket announces: only desktops hold
/// one, phones and watches talk HTTP.
pub open spec fn desktop_kind() -> Seq<char> {
    "desktop"@
}

/// Messages in the relay protocol, in both directions.
#[derive(Debug, Clone)]
pub enum RelayMessage {
    /// Outbound keepalive.
    Heartbeat,
    /// Outbound: authenticate the socket and register this account device.
    AuthConnect { token: String, device_name: String, device_kind: String },
    /// Outbound: route an encrypted payload to another device of the account.
    DeviceMessage {
        target_device_id: String,
        correlation_id: String,
        encrypted_data: String,
        nonce: String,
    },
    /// Inbound answer to a heartbeat.
    HeartbeatAck,
    /// Inbound failure report of the relay.
    Error { message: String },
    /// Inbound: the relay validated the account token.
    AuthOk { user_id: String, device_id: String },
    /// Inbound: the relay refused the account token.
    AuthError { message: String },
    /// Inbound message routed from another device of the account.
    IncomingDeviceMessage {
        source_device_id: String,
        correlation_id: String,
        encrypted_data: String,
        nonce: String,
    },
    /// Inbound list of the account's online devices.
    DevicePresence { devices: Vec<DevicePresenceEntry> },
}

/// One online device of the account.
#[derive(Debug, Clone)]
pub struct DevicePresenceEntry {
    pub device_id: String,
    pub device_name: String,
}

/// Events emitted by the relay client to the upper layers.
#[derive(Debug, Clone)]
pub enum RelayEvent {
    Connected,
    Reconnected,
    Disconnected,
    Error { message: String },
    /// The account token was accepted.
    AuthOk { user_id: String, device_id: String },
    AuthError { message: String },
    /// Encrypted message from another device of the account.
    DeviceMessageReceived {
        source_device_id: String,
        correlation_id: String,
        encrypted_data: String,
        nonce: String,
    },
    /// The account's online devices.
    DevicePresence { devices: Vec<DevicePresenceEntry> },
}

impl RelayMessage {
    /// Whether the message is the account authentication of a desktop with
    /// this token under this device name.
    pub open spec fn authenticates(self, account_token: Seq<char>, name: Seq<char>) -> bool {
        self matches RelayMessage::AuthConnect { token, device_name, device_kind } && token@
            == account_token && device_name@ == name && device_kind@ == desktop_kind()
    }

    /// The event that an inbound message stands for. Acknowledgements and
    /// messages of the outbound direction stand for none.
    pub open spec fn event(self) -> Option<RelayEvent> {
        match self {
            RelayMessage::Error { message } => Some(RelayEvent::Error { message }),
            RelayMessage::AuthOk { user_id, device_id } => Some(
                RelayEvent::AuthOk { user_id, device_id },
            ),
            RelayMessage::AuthError { message } => Some(RelayEvent::AuthError { message }),
            RelayMessage::IncomingDeviceMessage {
                source_device_id,
                correlation_id,
                encrypted_data,
                nonce,
            } => Some(
                RelayEvent::DeviceMessageReceived {
                    source_device_id,
                    correlation_id,
                    encrypted_data,
                    nonce,
                },
            ),
            RelayMessage::DevicePresence { devices } => Some(
                RelayEvent::DevicePresence { devices },
            ),
            _ => None,
        }
    }

    /// The account authentication of a desktop.
    pub fn auth_connect(token: &str, device_name: &str) -> (r: RelayMessage)
        ensures
            r.authenticates(token@, device_name@),
    {
        RelayMessage::AuthConnect {
            token: token.to_string(),
            device_name: device_name.to_string(),
            device_kind: "desktop".to_string(),
        }
    }

    /// Turns an inbound message into the event that it stands for.
    pub fn into_event(self) -> (r: Option<RelayEvent>)
        ensures
            r == self.event(),
    {
        match self {
            RelayMessage::Error { message } => Some(RelayEvent::Error { message }),
            RelayMessage::AuthOk { user_id, device_id } => Some(
                RelayEvent::AuthOk { user_id, device_id },
            ),
            RelayMessage::AuthError { message } => Some(RelayEvent::AuthError { message }),
            RelayMessage::IncomingDeviceMessage {
                source_device_id,
                correlation_id,
                encrypted_data,
                nonce,
            } => Some(
                RelayEvent::DeviceMessageReceived {
                    source_device_id,
                    correlation_id,
                    encrypted_data,
                    nonce,
                },
            ),
            RelayMessage::DevicePresence { devices } => Some(
                RelayEvent::DevicePresence { devices },
            ),
            _ => None,
        }
    }
}

} // verus!
