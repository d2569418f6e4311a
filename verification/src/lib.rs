//! Client side of the relay connection protocol.
//!
//! The library holds every decision of the relay client: what each lifecycle
//! operation does to the connection state, what the connection supervisor does
//! next, which inbound messages become events, which outbound message goes
//! first, and where device payloads are submitted. Sockets, timers and tasks
//! belong to the program around it.
pub mod behaviour;
pub mod client;
pub mod endpoint;
pub mod error;
pub mod http_status;
pub mod laws;
pub mod lifecycle;
pub mod message;
pub mod queue;
pub mod relay_url;
pub mod socket;
pub mod supervisor;
pub mod text;
