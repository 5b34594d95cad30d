//! Decision logic of the connection orchestrator.
//!
//! The orchestrator itself lives outside the crate: it owns the transport,
//! the channels and the background tasks.  Every decision it takes — whether
//! to retry after a failure, whether a timer tick must inject a ping, and how
//! an inbound packet is split into state change, notification and reply —
//! is a verified function here.

use vstd::prelude::*;
use crate::errors::ConnectError;
use crate::options::ReconnectOptions;
use crate::packets::{Packet, PacketView, PublishView, QoS, Request, RequestView};
use crate::state::{
    contains_pkid, lemma_ack_idempotence, spec_incoming_connack, spec_incoming_pingresp,
    spec_incoming_puback, spec_incoming_publish, MqttState, SessionView,
};

verus! {

/// What the orchestrator does after a failed connection attempt.
#[derive(Clone, Copy, Debug, PartialEq, Eq, Structural)]
pub enum ReconnectDecision {
    /// Terminate permanently; no further attempts.
    Halt,
    /// Wait the given number of seconds, then attempt again.
    RetryAfter(u16),
}

/// Model of the reconnect policy: `Never` always halts;
/// `AfterFirstSuccess` halts only while no connection has ever succeeded;
/// `Always` always retries.
pub open spec fn spec_reconnect_decision(
    opts: ReconnectOptions,
    initial_connect: bool,
) -> ReconnectDecision {
    match opts {
        ReconnectOptions::Never => ReconnectDecision::Halt,
        ReconnectOptions::AfterFirstSuccess(d) => if initial_connect {
            ReconnectDecision::Halt
        } else {
            ReconnectDecision::RetryAfter(d)
        },
        ReconnectOptions::Always(d) => ReconnectDecision::RetryAfter(d),
    }
}

/// Decides the orchestrator's next move after a failed attempt.
/// `initial_connect` is the session's flag: true while no handshake has ever
/// succeeded.
pub fn reconnect_decision(opts: &ReconnectOptions, initial_connect: bool) -> (r:
    ReconnectDecision)
    ensures
        r == spec_reconnect_decision(*opts, initial_connect),
{
    match opts {
        ReconnectOptions::Never => ReconnectDecision::Halt,
        ReconnectOptions::AfterFirstSuccess(d) => {
            if initial_connect {
                ReconnectDecision::Halt
            } else {
                ReconnectDecision::RetryAfter(*d)
            }
        },
        ReconnectOptions::Always(d) => ReconnectDecision::RetryAfter(*d),
    }
}

/// Law (reconnect policy): a `Never` policy ends the engine on any failure;
/// `AfterFirstSuccess` ends it exactly when no connection has ever succeeded
/// and otherwise waits the configured delay; `Always` waits the configured
/// delay on every failure, first or subsequent.
pub proof fn lemma_reconnect_policy(initial_connect: bool, d: u16)
    ensures
        spec_reconnect_decision(ReconnectOptions::Never, initial_connect)
            == ReconnectDecision::Halt,
        spec_reconnect_decision(ReconnectOptions::AfterFirstSuccess(d), true)
            == ReconnectDecision::Halt,
        spec_reconnect_decision(ReconnectOptions::AfterFirstSuccess(d), false)
            == ReconnectDecision::RetryAfter(d),
        spec_reconnect_decision(ReconnectOptions::Always(d), initial_connect)
            == ReconnectDecision::RetryAfter(d),
{
}

/// What the router makes of one inbound packet: either a (possibly empty)
/// pair of outputs, or an explicitly ignored packet.  The notification goes
/// to the application over a droppable channel; the reply goes back to the
/// broker over the same ordered command path the application uses.
#[derive(Debug, PartialEq)]
pub enum Routed {
    Handled { notification: Option<Packet>, reply: Option<Request> },
    Ignored,
}

#[verifier::ext_equal]
pub enum RoutedView {
    Handled { notification: Option<PacketView>, reply: Option<RequestView> },
    Ignored,
}

impl View for Routed {
    type V = RoutedView;

    open spec fn view(&self) -> RoutedView {
        match self {
            Routed::Handled { notification, reply } => RoutedView::Handled {
                notification: match notification {
                    Some(p) => Some(p@),
                    None => None,
                },
                reply: match reply {
                    Some(q) => Some(q@),
                    None => None,
                },
            },
            Routed::Ignored => RoutedView::Ignored,
        }
    }
}

/// Model of the inbound router.  Acknowledgments and connacks are forwarded
/// to the application whether or not they match session state — a mismatch
/// is soft and absorbed here.  A deliverable publish is forwarded, and its
/// acknowledgment, if owed, becomes a reply request.  Every packet variant
/// this client never receives as a client is explicitly ignored.
pub open spec fn spec_route(s: SessionView, p: PacketView) -> (SessionView, RoutedView) {
    match p {
        PacketView::Connack(c) => (
            spec_incoming_connack(s, c).0,
            RoutedView::Handled { notification: Some(PacketView::Connack(c)), reply: None },
        ),
        PacketView::Puback(id) => (
            spec_incoming_puback(s, id).0,
            RoutedView::Handled { notification: Some(PacketView::Puback(id)), reply: None },
        ),
        PacketView::Pingresp => (
            spec_incoming_pingresp(s),
            RoutedView::Handled { notification: None, reply: None },
        ),
        PacketView::Publish(pb) => match spec_incoming_publish(pb) {
            Ok((deliver, ack)) => (
                s,
                RoutedView::Handled {
                    notification: match deliver {
                        Some(d) => Some(PacketView::Publish(d)),
                        None => None,
                    },
                    reply: match ack {
                        Some(PacketView::Puback(id)) => Some(RequestView::Puback(id)),
                        _ => None,
                    },
                },
            ),
            Err(_) => (s, RoutedView::Ignored),
        },
        PacketView::Suback(sb) => (
            s,
            RoutedView::Handled { notification: Some(PacketView::Suback(sb)), reply: None },
        ),
        _ => (s, RoutedView::Ignored),
    }
}

/// Routes one decoded inbound packet, in receipt order, through the session
/// state machine, splitting it into a state change, a notification for the
/// application, and a reply for the broker.
pub fn route_incoming_packet(state: &mut MqttState, packet: Packet) -> (r: Routed)
    requires
        old(state)@.wf(),
    ensures
        final(state)@ == spec_route(old(state)@, packet@).0,
        r@ == spec_route(old(state)@, packet@).1,
        final(state)@.wf(),
{
    match packet {
        Packet::Connack(connack) => {
            // A refused connack mid-session is soft: noted, not fatal.
            let _ = state.handle_incoming_connack(connack);
            Routed::Handled { notification: Some(Packet::Connack(connack)), reply: None }
        },
        Packet::Puback(pkid) => {
            // An unsolicited acknowledgment is soft: absorbed here.
            let _ = state.handle_incoming_puback(pkid);
            Routed::Handled { notification: Some(Packet::Puback(pkid)), reply: None }
        },
        Packet::Pingresp => {
            state.handle_incoming_pingresp();
            Routed::Handled { notification: None, reply: None }
        },
        Packet::Publish(publish) => {
            match state.handle_incoming_publish(publish) {
                Ok((deliver, ack)) => {
                    let notification = match deliver {
                        Some(p) => Some(Packet::Publish(p)),
                        None => None,
                    };
                    let reply = match ack {
                        Some(Packet::Puback(id)) => Some(Request::Puback(id)),
                        _ => None,
                    };
                    Routed::Handled { notification, reply }
                },
                // A malformed inbound publish is soft: noted, not fatal.
                Err(_) => Routed::Ignored,
            }
        },
        Packet::Suback(suback) => {
            Routed::Handled { notification: Some(Packet::Suback(suback)), reply: None }
        },
        Packet::Connect(_) => Routed::Ignored,
        Packet::Pingreq => Routed::Ignored,
        Packet::Subscribe(_) => Routed::Ignored,
        Packet::Disconnect => Routed::Ignored,
    }
}

/// Whether the timer task must inject a ping on its next tick.
pub open spec fn spec_ping_due(s: SessionView) -> bool {
    s.ping_required
}

/// The decision of one keep-alive timer tick: inject exactly one ping while
/// the ping obligation stands, nothing otherwise.  The ping travels the same
/// ordered command path as application requests.
pub fn handle_timer_tick(state: &MqttState) -> (r: Option<Request>)
    ensures
        r is Some <==> spec_ping_due(state@),
        r matches Some(q) ==> q is Ping,
{
    if state.is_ping_required() {
        Some(Request::Ping)
    } else {
        None
    }
}

/// The view of an optional packet, as handed back by a transport read.
pub open spec fn opt_packet_view(p: Option<Packet>) -> Option<PacketView> {
    match p {
        Some(pk) => Some(pk@),
        None => None,
    }
}

/// Model of the handshake's second half: the first packet after Connect must
/// be a Connack; a closed stream or any other packet refuses the attempt.
pub open spec fn spec_connect_response(s: SessionView, p: Option<PacketView>) -> (
    SessionView,
    Result<(), ConnectError>,
) {
    match p {
        None => (s, Err(ConnectError::StreamClosed)),
        Some(PacketView::Connack(c)) => spec_incoming_connack(s, c),
        Some(_) => (s, Err(ConnectError::UnexpectedPacket)),
    }
}

/// Completes the handshake of one connection attempt from the first packet
/// the broker sent back, or reports why the attempt failed; the failure
/// feeds the reconnect policy.
pub fn handle_connect_response(state: &mut MqttState, response: Option<Packet>) -> (r: Result<
    (),
    ConnectError,
>)
    ensures
        final(state)@ == spec_connect_response(old(state)@, opt_packet_view(response)).0,
        r == spec_connect_response(old(state)@, opt_packet_view(response)).1,
        old(state)@.wf() ==> final(state)@.wf(),
{
    match response {
        None => Err(ConnectError::StreamClosed),
        Some(Packet::Connack(connack)) => state.handle_incoming_connack(connack),
        Some(_) => Err(ConnectError::UnexpectedPacket),
    }
}

/// Law (ping liveness): a ping response — and nothing else the router sees —
/// clears the ping obligation, so the next timer check injects nothing;
/// while the obligation stands every check injects exactly one ping.
pub proof fn lemma_ping_liveness(s: SessionView)
    ensures
        spec_ping_due(s) == s.ping_required,
        !spec_ping_due(spec_incoming_pingresp(s)),
        spec_route(s, PacketView::Pingresp).0 == spec_incoming_pingresp(s),
{
}

/// Law (QoS-1 delivery): an inbound QoS-1 publish is both offered for
/// delivery and answered with a Puback carrying the identical packet
/// identifier — whatever the session state, which it leaves unchanged.  The
/// reply is owed even where the notification is dropped: the two outputs are
/// independent fields of the routing result.
pub proof fn lemma_qos1_delivery(s: SessionView, p: PublishView, id: u16)
    requires
        p.qos == QoS::AtLeastOnce,
        p.pkid == Some(id),
    ensures
        spec_route(s, PacketView::Publish(p)).0 == s,
        spec_route(s, PacketView::Publish(p)).1 == (RoutedView::Handled {
            notification: Some(PacketView::Publish(p)),
            reply: Some(RequestView::Puback(id)),
        }),
{
}

/// Law (ack absorption): an acknowledgment with no matching outstanding
/// publish, routed mid-session, changes no state and produces no reply —
/// the connection is not ended, the application is still notified.
pub proof fn lemma_unsolicited_ack_routing(s: SessionView, pkid: u16)
    requires
        !contains_pkid(s.outstanding, pkid),
    ensures
        spec_route(s, PacketView::Puback(pkid)).0 == s,
        spec_route(s, PacketView::Puback(pkid)).1 == (RoutedView::Handled {
            notification: Some(PacketView::Puback(pkid)),
            reply: None,
        }),
{
    lemma_ack_idempotence(s, pkid);
}

} // verus!
