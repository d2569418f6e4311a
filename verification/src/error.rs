//! Errors of the relay client and their texts.
use crate::text::{decimal_string, join3};
use vstd::prelude::*;

verus! {

/// Deadline for one connection attempt, in seconds.
pub const RELAY_DIAL_TIMEOUT_SECS: u64 = 15;

/// Why a relay operation failed.
///
/// No variant of the enqueue errors carries the refused command, so a refused
/// command never shows up in an error text.
#[derive(Debug, Clone, PartialEq, Eq)]
pub enum RelayError {
    /// There is no connected transport to enqueue on.
    NotConnected,
    /// The command queue holds as many commands as it may.
    QueueFull,
    /// The receiving half of the command queue is gone.
    QueueClosed,
    /// The connection attempt ended without a verdict.
    ConnectCancelled,
    /// Another lifecycle operation replaced the connection attempt.
    ConnectSuperseded,
    /// No account token is known for this connection.
    NotAuthenticated,
    /// The target device id cannot be one path segment.
    InvalidTarget,
    /// The relay URL does not parse; the text is the parser's.
    InvalidUrl { reason: String },
    /// The relay URL is neither `ws` nor `wss`.
    InvalidScheme,
    /// The relay URL does not take the HTTP scheme.
    InvalidHttpScheme,
    /// The relay URL carries credentials, a query or a fragment.
    InvalidEndpoint,
    /// The relay URL's path does not end in `/ws`.
    InvalidPath,
    /// The relay answered a device message with another status than 204.
    Rejected { status: String },
    /// A WebSocket write missed its deadline.
    WriteTimedOut,
    /// A connection attempt missed its deadline.
    DialTimedOut { ws_url: String },
    /// A connection attempt failed.
    Dial { ws_url: String, reason: String },
    /// The platform offers no trusted root certificate.
    NoTrustedRoots,
    /// A failure of the transport, passed on with its own text.
    Transport { reason: String },
}

impl RelayError {
    /// The text shown for the error.
    pub open spec fn text(self) -> Seq<char> {
        match self {
            RelayError::NotConnected => "Relay transport is not connected"@,
            RelayError::QueueFull => "Relay send queue is full; request was not queued"@,
            RelayError::QueueClosed => "Relay connection is closed"@,
            RelayError::ConnectCancelled => "Relay connection attempt cancelled"@,
            RelayError::ConnectSuperseded => "Relay connection attempt superseded"@,
            RelayError::NotAuthenticated => "Authenticated relay connection is unavailable"@,
            RelayError::InvalidTarget => "Invalid relay target device id"@,
            RelayError::InvalidUrl { reason } => reason@,
            RelayError::InvalidScheme => "Invalid relay WebSocket scheme"@,
            RelayError::InvalidHttpScheme => "Invalid relay HTTP scheme"@,
            RelayError::InvalidEndpoint => "Invalid relay WebSocket endpoint"@,
            RelayError::InvalidPath => "Invalid relay WebSocket path"@,
            RelayError::Rejected { status } => "Relay device message rejected (HTTP "@ + status@
                + ")"@,
            RelayError::WriteTimedOut => "Relay WebSocket write timed out"@,
            RelayError::DialTimedOut { ws_url } => "dial "@ + ws_url@
                + ": connection timed out after "@ + crate::text::decimal(
                RELAY_DIAL_TIMEOUT_SECS as nat,
            ) + " seconds"@,
            RelayError::Dial { ws_url, reason } => "dial "@ + ws_url@ + ": "@ + reason@,
            RelayError::NoTrustedRoots =>
                "No trusted Windows root certificates available for relay connection"@,
            RelayError::Transport { reason } => reason@,
        }
    }

    /// Whether the error is one that answers a refused command.
    pub open spec fn refuses_command(self) -> bool {
        self == RelayError::NotConnected || self == RelayError::QueueFull || self
            == RelayError::QueueClosed
    }

    /// The text shown for the error.
    pub fn message(&self) -> (r: String)
        ensures
            r@ == self.text(),
    {
        match self {
            RelayError::NotConnected => "Relay transport is not connected".to_string(),
            RelayError::QueueFull => "Relay send queue is full; request was not queued".to_string(),
            RelayError::QueueClosed => "Relay connection is closed".to_string(),
            RelayError::ConnectCancelled => "Relay connection attempt cancelled".to_string(),
            RelayError::ConnectSuperseded => "Relay connection attempt superseded".to_string(),
            RelayError::NotAuthenticated =>
                "Authenticated relay connection is unavailable".to_string(),
            RelayError::InvalidTarget => "Invalid relay target device id".to_string(),
            RelayError::InvalidUrl { reason } => reason.clone(),
            RelayError::InvalidScheme => "Invalid relay WebSocket scheme".to_string(),
            RelayError::InvalidHttpScheme => "Invalid relay HTTP scheme".to_string(),
            RelayError::InvalidEndpoint => "Invalid relay WebSocket endpoint".to_string(),
            RelayError::InvalidPath => "Invalid relay WebSocket path".to_string(),
            RelayError::Rejected { status } => join3(
                "Relay device message rejected (HTTP ",
                status.as_str(),
                ")",
            ),
            RelayError::WriteTimedOut => "Relay WebSocket write timed out".to_string(),
            RelayError::DialTimedOut { ws_url } => {
                let head: String = join3(
                    "dial ",
                    ws_url.as_str(),
                    ": connection timed out after ",
                );
                let secs: String = decimal_string(RELAY_DIAL_TIMEOUT_SECS);
                join3(head.as_str(), secs.as_str(), " seconds")
            },
            RelayError::Dial { ws_url, reason } => {
                let head: String = join3("dial ", ws_url.as_str(), ": ");
                head.concat(reason.as_str())
            },
            RelayError::NoTrustedRoots =>
                "No trusted Windows root certificates available for relay connection".to_string(),
            RelayError::Transport { reason } => reason.clone(),
        }
    }
}

} // verus!
