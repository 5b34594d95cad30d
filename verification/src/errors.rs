//! Error vocabulary of the session engine.
//!
//! Connect-phase failures feed the reconnect policy; request failures are
//! reported to the caller of the command path; inbound protocol errors are
//! soft and absorbed by the packet router.

use vstd::prelude::*;
use crate::packets::ConnectReturnCode;

verus! {

/// Why the MQTT-level handshake of one connection attempt failed.
#[derive(Clone, Copy, Debug, PartialEq, Eq, Structural)]
pub enum ConnectError {
    /// The broker answered the Connect packet with a non-success code.
    ConnectionRefused(ConnectReturnCode),
    /// The first packet after Connect was not a Connack.
    UnexpectedPacket,
    /// The stream ended before any reply to the Connect packet arrived.
    StreamClosed,
}

/// Why a client request could not be turned into a wire packet.
#[derive(Clone, Copy, Debug, PartialEq, Eq, Structural)]
pub enum EncodeError {
    /// The handshake of the current attempt has not completed.
    NotConnected,
    /// The payload exceeds the largest size the protocol can frame.
    PayloadTooLong,
    /// The next packet identifier is still taken by an unacknowledged
    /// publish: the counter has wrapped around the whole identifier space.
    PacketIdsExhausted,
    /// The requested delivery level is not supported by this engine.
    UnsupportedQos,
}

/// Why an inbound publish could not be handled.  Soft: the router logs and
/// ignores the packet, the connection stays up.
#[derive(Clone, Copy, Debug, PartialEq, Eq, Structural)]
pub enum ProtocolError {
    /// A QoS-1 publish arrived without a packet identifier.
    PacketIdMissing,
    /// The delivery level of the inbound publish is not supported.
    UnsupportedQos,
}

/// An acknowledgment arrived for a packet identifier with no outstanding
/// publish.  Soft: duplicate or late acks are possible and are ignored.
#[derive(Clone, Copy, Debug, PartialEq, Eq, Structural)]
pub struct UnsolicitedAck {
    pub pkid: u16,
}

} // verus!
