//! Client-side MQTT session engine: the protocol session state machine and
//! the connection-lifecycle decision logic that drives it.
//!
//! The crate owns the session state (outstanding QoS-1 publishes, the
//! ping-required flag, handshake progress) and exposes pure transition
//! functions from packets and requests to state changes, reply packets and
//! notifications.  Transports, timers and channels live outside the crate;
//! they hand packets in and carry packets out.

pub mod connection;
pub mod errors;
pub mod options;
pub mod packets;
pub mod state;
