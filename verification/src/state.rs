//! The protocol session state machine.
//!
//! `MqttState` holds everything that must survive a reconnect: the set of
//! QoS-1 publishes sent but not yet acknowledged (in send order), the
//! ping-required flag, and the handshake progress of the current attempt.
//! Every wire event and every client request goes through exactly one of the
//! transition functions below; each transition is specified against a pure
//! model (`spec_*`) over the state's view.

use vstd::prelude::*;
use crate::errors::{ConnectError, EncodeError, ProtocolError, UnsolicitedAck};
use crate::options::{MqttOptions, MqttOptionsView};
use crate::packets::{
    Connack, Connect, ConnectReturnCode, ConnectView, Packet, PacketView, Publish, PublishView,
    QoS, Request, RequestView,
};

verus! {

/// The largest payload the protocol's remaining-length field can frame.
pub const MAX_PAYLOAD_SIZE: usize = 268435455;

/// Mathematical model of a session.
#[verifier::ext_equal]
pub struct SessionView {
    pub opts: MqttOptionsView,
    /// True until the engine's very first successful handshake.
    pub initial_connect: bool,
    /// True whenever outgoing traffic awaits a proof of broker liveness;
    /// cleared only by an inbound ping response.
    pub ping_required: bool,
    /// Whether the current attempt's handshake has completed.
    pub connack_received: bool,
    /// The packet identifier most recently assigned to an outgoing publish.
    pub next_pkid: u16,
    /// Every QoS-1 publish sent but not yet acknowledged, in send order.
    pub outstanding: Seq<PublishView>,
}

/// Whether some outstanding publish carries the given packet identifier.
pub open spec fn contains_pkid(s: Seq<PublishView>, pkid: u16) -> bool {
    exists|i: int| 0 <= i < s.len() && s[i].pkid == Some(pkid)
}

/// Well-formedness of the outstanding queue: only QoS-1 publishes, each with
/// a packet identifier, and no identifier used twice.
pub open spec fn wf_outstanding(s: Seq<PublishView>) -> bool {
    &&& forall|i: int|
        0 <= i < s.len() ==> (#[trigger] s[i]).qos == QoS::AtLeastOnce && s[i].pkid is Some
    &&& forall|i: int, j: int| 0 <= i < j < s.len() ==> s[i].pkid != s[j].pkid
}

impl SessionView {
    /// The session invariant.
    pub open spec fn wf(self) -> bool {
        wf_outstanding(self.outstanding)
    }

    /// The session as it stands when the engine is created.
    pub open spec fn initial(opts: MqttOptionsView) -> SessionView {
        SessionView {
            opts,
            initial_connect: true,
            ping_required: false,
            connack_received: false,
            next_pkid: 0,
            outstanding: Seq::empty(),
        }
    }
}

/// The packet identifier assigned after `cur`: identifiers run 1..=65535 and
/// wrap around, skipping 0.
pub open spec fn spec_next_pkid(cur: u16) -> u16 {
    if cur >= 65535 {
        1
    } else {
        (cur + 1) as u16
    }
}

/// The Connect packet built from the configuration.
pub open spec fn spec_connect_packet(o: MqttOptionsView) -> ConnectView {
    ConnectView {
        client_id: o.client_id,
        keep_alive: match o.keep_alive {
            Some(k) => k,
            None => 0,
        },
        clean_session: o.clean_session,
        username: o.username,
        password: o.password,
    }
}

/// Model of `handle_outgoing_connect`: a fresh attempt is in flight, so the
/// handshake flag is cleared; the packet is built from the configuration.
pub open spec fn spec_outgoing_connect(s: SessionView) -> (SessionView, ConnectView) {
    (SessionView { connack_received: false, ..s }, spec_connect_packet(s.opts))
}

/// Model of `handle_incoming_connack`: a success code completes the
/// handshake; any other code refuses the attempt and changes nothing.
pub open spec fn spec_incoming_connack(s: SessionView, c: Connack) -> (SessionView, Result<
    (),
    ConnectError,
>) {
    if c.code == ConnectReturnCode::Accepted {
        (SessionView { connack_received: true, ..s }, Ok(()))
    } else {
        (s, Err(ConnectError::ConnectionRefused(c.code)))
    }
}

/// Model of `handle_reconnection`: the very first successful connection has
/// nothing to replay and retires the initial-connect flag; afterwards every
/// reconnection replays the outstanding queue, in send order, unless it is
/// empty.
pub open spec fn spec_reconnection(s: SessionView) -> (SessionView, Option<Seq<PublishView>>) {
    if s.initial_connect {
        (SessionView { initial_connect: false, ..s }, None)
    } else if s.outstanding.len() > 0 {
        (s, Some(s.outstanding))
    } else {
        (s, None)
    }
}

/// Model of `handle_incoming_pingresp`: the broker proved it is alive.
pub open spec fn spec_incoming_pingresp(s: SessionView) -> SessionView {
    SessionView { ping_required: false, ..s }
}

/// The outstanding queue with the first publish carrying `pkid` removed.
pub open spec fn remove_pkid(s: Seq<PublishView>, pkid: u16) -> Seq<PublishView>
    decreases s.len(),
{
    if s.len() == 0 {
        s
    } else if s[0].pkid == Some(pkid) {
        s.drop_first()
    } else {
        seq![s[0]] + remove_pkid(s.drop_first(), pkid)
    }
}

/// Model of `handle_incoming_puback`: a matching acknowledgment retires its
/// publish; an unsolicited one changes nothing.  The boolean says whether the
/// acknowledgment matched.
pub open spec fn spec_incoming_puback(s: SessionView, pkid: u16) -> (SessionView, bool) {
    if contains_pkid(s.outstanding, pkid) {
        (SessionView { outstanding: remove_pkid(s.outstanding, pkid), ..s }, true)
    } else {
        (s, false)
    }
}

/// Model of `handle_incoming_publish`: QoS-0 is delivered with no reply;
/// QoS-1 is delivered and acknowledged with the identical packet identifier;
/// anything else is a protocol error.
pub open spec fn spec_incoming_publish(p: PublishView) -> Result<
    (Option<PublishView>, Option<PacketView>),
    ProtocolError,
> {
    match p.qos {
        QoS::AtMostOnce => Ok((Some(p), None)),
        QoS::AtLeastOnce => match p.pkid {
            Some(id) => Ok((Some(p), Some(PacketView::Puback(id)))),
            None => Err(ProtocolError::PacketIdMissing),
        },
        QoS::ExactlyOnce => Err(ProtocolError::UnsupportedQos),
    }
}

/// A session right after an outgoing packet was produced: broker liveness is
/// now in question until a ping response arrives.
pub open spec fn spec_sent(s: SessionView) -> SessionView {
    SessionView { ping_required: true, ..s }
}

/// Model of the publish arm of `handle_client_requests`.
pub open spec fn spec_request_publish(s: SessionView, p: PublishView) -> (SessionView, Result<
    PacketView,
    EncodeError,
>) {
    if p.payload.len() > MAX_PAYLOAD_SIZE {
        (s, Err(EncodeError::PayloadTooLong))
    } else {
        match p.qos {
            QoS::AtMostOnce => (spec_sent(s), Ok(PacketView::Publish(p))),
            QoS::AtLeastOnce => {
                let id = spec_next_pkid(s.next_pkid);
                if contains_pkid(s.outstanding, id) {
                    (s, Err(EncodeError::PacketIdsExhausted))
                } else {
                    let assigned = PublishView { pkid: Some(id), ..p };
                    (
                        SessionView {
                            next_pkid: id,
                            outstanding: s.outstanding.push(assigned),
                            ping_required: true,
                            ..s
                        },
                        Ok(PacketView::Publish(assigned)),
                    )
                }
            },
            QoS::ExactlyOnce => (s, Err(EncodeError::UnsupportedQos)),
        }
    }
}

/// Model of `handle_client_requests`: before the handshake no user packet may
/// go out; afterwards every request maps to exactly one wire packet.
pub open spec fn spec_client_request(s: SessionView, req: RequestView) -> (SessionView, Result<
    PacketView,
    EncodeError,
>) {
    if !s.connack_received {
        (s, Err(EncodeError::NotConnected))
    } else {
        match req {
            RequestView::Publish(p) => spec_request_publish(s, p),
            RequestView::Subscribe(sub) => (spec_sent(s), Ok(PacketView::Subscribe(sub))),
            RequestView::Ping => (spec_sent(s), Ok(PacketView::Pingreq)),
            RequestView::Puback(id) => (spec_sent(s), Ok(PacketView::Puback(id))),
            RequestView::Disconnect => (spec_sent(s), Ok(PacketView::Disconnect)),
        }
    }
}

/// The view of a packet-or-encode-error result.
pub open spec fn packet_result_view(r: Result<Packet, EncodeError>) -> Result<
    PacketView,
    EncodeError,
> {
    match r {
        Ok(p) => Ok(p@),
        Err(e) => Err(e),
    }
}

/// The view of an optional replay queue.
pub open spec fn opt_publishes_view(r: Option<Vec<Publish>>) -> Option<Seq<PublishView>> {
    match r {
        Some(v) => Some(v@.map_values(|p: Publish| p@)),
        None => None,
    }
}

/// The view of a delivery/reply pair produced for an inbound publish.
pub open spec fn incoming_publish_result_view(
    r: Result<(Option<Publish>, Option<Packet>), ProtocolError>,
) -> Result<(Option<PublishView>, Option<PacketView>), ProtocolError> {
    match r {
        Ok((d, a)) => Ok(
            (
                match d {
                    Some(p) => Some(p@),
                    None => None,
                },
                match a {
                    Some(p) => Some(p@),
                    None => None,
                },
            ),
        ),
        Err(e) => Err(e),
    }
}

/// Per-session protocol state, owned by the connection orchestrator and
/// mutated only through the transition functions below.
pub struct MqttState {
    opts: MqttOptions,
    initial_connect: bool,
    ping_required: bool,
    connack_received: bool,
    next_pkid: u16,
    outstanding: Vec<Publish>,
}

impl View for MqttState {
    type V = SessionView;

    closed spec fn view(&self) -> SessionView {
        SessionView {
            opts: self.opts@,
            initial_connect: self.initial_connect,
            ping_required: self.ping_required,
            connack_received: self.connack_received,
            next_pkid: self.next_pkid,
            outstanding: self.outstanding@.map_values(|p: Publish| p@),
        }
    }
}

impl MqttState {
    /// Creates the session state for one engine instance.  It lives for the
    /// whole process and survives every reconnect.
    pub fn new(opts: MqttOptions) -> (r: MqttState)
        ensures
            r@ == SessionView::initial(opts@),
            r@.wf(),
    {
        let r = MqttState {
            opts,
            initial_connect: true,
            ping_required: false,
            connack_received: false,
            next_pkid: 0,
            outstanding: Vec::new(),
        };
        proof {
            assert(r@ =~= SessionView::initial(r.opts@));
        }
        r
    }

    /// Read-only accessor for the timer task.
    pub fn is_ping_required(&self) -> (r: bool)
        ensures
            r == self@.ping_required,
    {
        self.ping_required
    }

    /// Whether no handshake has ever succeeded.
    pub fn initial_connect(&self) -> (r: bool)
        ensures
            r == self@.initial_connect,
    {
        self.initial_connect
    }

    /// Builds the Connect packet for a fresh attempt and records that the
    /// attempt's handshake is now in flight.
    pub fn handle_outgoing_connect(&mut self) -> (r: Connect)
        ensures
            final(self)@ == spec_outgoing_connect(old(self)@).0,
            r@ == spec_outgoing_connect(old(self)@).1,
            old(self)@.wf() ==> final(self)@.wf(),
    {
        self.connack_received = false;
        let keep_alive = match self.opts.keep_alive {
            Some(k) => k,
            None => 0,
        };
        let r = Connect {
            client_id: self.opts.client_id.clone(),
            keep_alive,
            clean_session: self.opts.clean_session,
            username: crate::options::clone_opt_string(&self.opts.username),
            password: crate::options::clone_opt_string(&self.opts.password),
        };
        proof {
            assert(self@ =~= spec_outgoing_connect(old(self)@).0);
            assert(r@ =~= spec_outgoing_connect(old(self)@).1);
        }
        r
    }

    /// Validates the broker's answer to the handshake.
    pub fn handle_incoming_connack(&mut self, connack: Connack) -> (r: Result<(), ConnectError>)
        ensures
            final(self)@ == spec_incoming_connack(old(self)@, connack).0,
            r == spec_incoming_connack(old(self)@, connack).1,
            old(self)@.wf() ==> final(self)@.wf(),
    {
        if connack.code == ConnectReturnCode::Accepted {
            self.connack_received = true;
            proof {
                assert(self@ =~= spec_incoming_connack(old(self)@, connack).0);
            }
            Ok(())
        } else {
            Err(ConnectError::ConnectionRefused(connack.code))
        }
    }

    /// Clears the ping obligation: the broker just proved it is alive.
    pub fn handle_incoming_pingresp(&mut self)
        ensures
            final(self)@ == spec_incoming_pingresp(old(self)@),
            old(self)@.wf() ==> final(self)@.wf(),
    {
        self.ping_required = false;
        proof {
            assert(self@ =~= spec_incoming_pingresp(old(self)@));
        }
    }

    /// Whether some outstanding publish carries the given packet identifier.
    fn has_outstanding(&self, pkid: u16) -> (r: bool)
        ensures
            r == contains_pkid(self@.outstanding, pkid),
    {
        let n = self.outstanding.len();
        let mut i: usize = 0;
        while i < n
            invariant
                n == self.outstanding.len(),
                i <= n,
                forall|j: int| 0 <= j < i ==> self@.outstanding[j].pkid != Some(pkid),
            decreases n - i,
        {
            let found = match self.outstanding[i].pkid {
                Some(p) => p == pkid,
                None => false,
            };
            if found {
                proof {
                    assert(self@.outstanding[i as int].pkid == Some(pkid));
                }
                return true;
            }
            i += 1;
        }
        false
    }

    /// Reports the outstanding publishes that a fresh connection must replay,
    /// in send order, and retires the initial-connect flag on the very first
    /// call.  The publishes stay outstanding until acknowledged.
    pub fn handle_reconnection(&mut self) -> (r: Option<Vec<Publish>>)
        ensures
            final(self)@ == spec_reconnection(old(self)@).0,
            opt_publishes_view(r) == spec_reconnection(old(self)@).1,
            old(self)@.wf() ==> final(self)@.wf(),
    {
        if self.initial_connect {
            self.initial_connect = false;
            proof {
                assert(self@ =~= spec_reconnection(old(self)@).0);
            }
            None
        } else if self.outstanding.len() > 0 {
            let replay = self.outstanding.clone();
            proof {
                assert forall|i: int| 0 <= i < replay@.len() implies replay@[i]@
                    == self.outstanding@[i]@ by {
                    assert(cloned::<Publish>(self.outstanding[i as int], replay[i as int]));
                }
                assert(replay@.map_values(|p: Publish| p@) =~= self@.outstanding);
            }
            Some(replay)
        } else {
            None
        }
    }

    /// Translates a client request into the wire packet to send.  An accepted
    /// QoS-1 publish is assigned a fresh packet identifier and recorded as
    /// outstanding before the packet is returned.
    pub fn handle_client_requests(&mut self, request: Request) -> (r: Result<Packet, EncodeError>)
        requires
            old(self)@.wf(),
        ensures
            final(self)@ == spec_client_request(old(self)@, request@).0,
            packet_result_view(r) == spec_client_request(old(self)@, request@).1,
            final(self)@.wf(),
    {
        if !self.connack_received {
            return Err(EncodeError::NotConnected);
        }
        match request {
            Request::Publish(publish) => self.handle_outgoing_publish(publish),
            Request::Subscribe(sub) => {
                self.ping_required = true;
                proof {
                    assert(self@ =~= spec_sent(old(self)@));
                }
                Ok(Packet::Subscribe(sub))
            },
            Request::Ping => {
                self.ping_required = true;
                proof {
                    assert(self@ =~= spec_sent(old(self)@));
                }
                Ok(Packet::Pingreq)
            },
            Request::Puback(pkid) => {
                self.ping_required = true;
                proof {
                    assert(self@ =~= spec_sent(old(self)@));
                }
                Ok(Packet::Puback(pkid))
            },
            Request::Disconnect => {
                self.ping_required = true;
                proof {
                    assert(self@ =~= spec_sent(old(self)@));
                }
                Ok(Packet::Disconnect)
            },
        }
    }

    /// The publish arm of `handle_client_requests`.
    fn handle_outgoing_publish(&mut self, publish: Publish) -> (r: Result<Packet, EncodeError>)
        requires
            old(self)@.wf(),
            old(self)@.connack_received,
        ensures
            final(self)@ == spec_request_publish(old(self)@, publish@).0,
            packet_result_view(r) == spec_request_publish(old(self)@, publish@).1,
            final(self)@.wf(),
    {
        if publish.payload.len() > MAX_PAYLOAD_SIZE {
            return Err(EncodeError::PayloadTooLong);
        }
        match publish.qos {
            QoS::AtMostOnce => {
                self.ping_required = true;
                proof {
                    assert(self@ =~= spec_sent(old(self)@));
                }
                Ok(Packet::Publish(publish))
            },
            QoS::AtLeastOnce => {
                let id: u16 = if self.next_pkid >= 65535 {
                    1
                } else {
                    self.next_pkid + 1
                };
                if self.has_outstanding(id) {
                    Err(EncodeError::PacketIdsExhausted)
                } else {
                    let assigned = Publish { pkid: Some(id), ..publish };
                    let stored = assigned.clone();
                    self.next_pkid = id;
                    self.outstanding.push(stored);
                    self.ping_required = true;
                    proof {
                        let target = spec_request_publish(old(self)@, publish@).0;
                        assert(self@.outstanding =~= target.outstanding);
                        assert(self@ =~= target);
                        lemma_wf_push(old(self)@.outstanding, assigned@, id);
                    }
                    Ok(Packet::Publish(assigned))
                }
            },
            QoS::ExactlyOnce => Err(EncodeError::UnsupportedQos),
        }
    }

    /// Retires the outstanding publish matching an inbound acknowledgment;
    /// reports an unsolicited acknowledgment, which the caller absorbs.
    pub fn handle_incoming_puback(&mut self, pkid: u16) -> (r: Result<(), UnsolicitedAck>)
        requires
            old(self)@.wf(),
        ensures
            final(self)@ == spec_incoming_puback(old(self)@, pkid).0,
            final(self)@.wf(),
            r == if spec_incoming_puback(old(self)@, pkid).1 {
                Ok::<(), UnsolicitedAck>(())
            } else {
                Err::<(), UnsolicitedAck>(UnsolicitedAck { pkid })
            },
    {
        let ghost s0 = *self;
        let n = self.outstanding.len();
        let mut i: usize = 0;
        while i < n
            invariant
                *self == s0,
                old(self)@ == s0@,
                old(self)@.wf(),
                n == self.outstanding.len(),
                i <= n,
                forall|j: int| 0 <= j < i ==> self@.outstanding[j].pkid != Some(pkid),
            decreases n - i,
        {
            let found = match self.outstanding[i].pkid {
                Some(p) => p == pkid,
                None => false,
            };
            if found {
                self.outstanding.remove(i);
                proof {
                    let before = old(self)@.outstanding;
                    assert(before[i as int].pkid == Some(pkid));
                    assert(contains_pkid(before, pkid));
                    assert(self@.outstanding =~= before.remove(i as int));
                    lemma_remove_pkid_first(before, pkid, i as int);
                    lemma_wf_remove(before, i as int, pkid);
                    assert(self@ =~= spec_incoming_puback(old(self)@, pkid).0);
                }
                return Ok(());
            }
            i += 1;
        }
        proof {
            assert(!contains_pkid(old(self)@.outstanding, pkid));
        }
        Err(UnsolicitedAck { pkid })
    }

    /// Splits an inbound publish into what is delivered to the application
    /// and what is acknowledged to the broker: QoS-0 is delivered with no
    /// reply, QoS-1 is delivered and acknowledged with the identical packet
    /// identifier.
    pub fn handle_incoming_publish(&self, publish: Publish) -> (r: Result<
        (Option<Publish>, Option<Packet>),
        ProtocolError,
    >)
        ensures
            incoming_publish_result_view(r) == spec_incoming_publish(publish@),
    {
        match publish.qos {
            QoS::AtMostOnce => Ok((Some(publish), None)),
            QoS::AtLeastOnce => match publish.pkid {
                Some(id) => Ok((Some(publish), Some(Packet::Puback(id)))),
                None => Err(ProtocolError::PacketIdMissing),
            },
            QoS::ExactlyOnce => Err(ProtocolError::UnsupportedQos),
        }
    }
}

/// Appending a fresh QoS-1 publish keeps the outstanding queue well-formed.
proof fn lemma_wf_push(s: Seq<PublishView>, p: PublishView, id: u16)
    requires
        wf_outstanding(s),
        p.qos == QoS::AtLeastOnce,
        p.pkid == Some(id),
        !contains_pkid(s, id),
    ensures
        wf_outstanding(s.push(p)),
{
    let t = s.push(p);
    assert forall|i: int, j: int| 0 <= i < j < t.len() implies t[i].pkid != t[j].pkid by {
        if j == s.len() {
            assert(t[i] == s[i]);
            if s[i].pkid == Some(id) {
                assert(contains_pkid(s, id));
            }
        } else {
            assert(t[i] == s[i]);
            assert(t[j] == s[j]);
        }
    }
}

/// Removing the first publish that carries `pkid` is removal at its index,
/// provided no earlier entry carries it.
proof fn lemma_remove_pkid_first(s: Seq<PublishView>, pkid: u16, i: int)
    requires
        0 <= i < s.len(),
        s[i].pkid == Some(pkid),
        forall|j: int| 0 <= j < i ==> s[j].pkid != Some(pkid),
    ensures
        remove_pkid(s, pkid) == s.remove(i),
    decreases i,
{
    if i == 0 {
        assert(remove_pkid(s, pkid) == s.drop_first());
        assert(s.remove(0) =~= s.drop_first());
    } else {
        assert(s[0].pkid != Some(pkid));
        assert(s.drop_first()[i - 1].pkid == Some(pkid));
        assert(forall|j: int| 0 <= j < i - 1 ==> s.drop_first()[j].pkid != Some(pkid));
        lemma_remove_pkid_first(s.drop_first(), pkid, i - 1);
        assert(remove_pkid(s, pkid) == seq![s[0]] + s.drop_first().remove(i - 1));
        assert(seq![s[0]] + s.drop_first().remove(i - 1) =~= s.remove(i));
    }
}

/// Removing the publish at the index of `pkid` keeps the queue well-formed
/// and leaves no publish carrying `pkid`.
proof fn lemma_wf_remove(s: Seq<PublishView>, i: int, pkid: u16)
    requires
        wf_outstanding(s),
        0 <= i < s.len(),
        s[i].pkid == Some(pkid),
    ensures
        wf_outstanding(s.remove(i)),
        !contains_pkid(s.remove(i), pkid),
{
    let r = s.remove(i);
    assert forall|j: int| 0 <= j < r.len() implies (#[trigger] r[j]).qos == QoS::AtLeastOnce
        && r[j].pkid is Some && r[j].pkid != Some(pkid) by {
        if j < i {
            assert(r[j] == s[j]);
            assert(s[j].pkid != s[i].pkid);
        } else {
            assert(r[j] == s[j + 1]);
            assert(s[i].pkid != s[j + 1].pkid);
        }
    }
    assert forall|a: int, b: int| 0 <= a < b < r.len() implies r[a].pkid != r[b].pkid by {
        let a2: int = if a < i {
            a
        } else {
            a + 1
        };
        let b2: int = if b < i {
            b
        } else {
            b + 1
        };
        assert(r[a] == s[a2]);
        assert(r[b] == s[b2]);
        assert(s[a2].pkid != s[b2].pkid);
    }
}

/// Law (ack idempotence): an acknowledgment for a packet identifier with no
/// outstanding publish changes nothing and is reported as unsolicited.
pub proof fn lemma_ack_idempotence(s: SessionView, pkid: u16)
    requires
        !contains_pkid(s.outstanding, pkid),
    ensures
        spec_incoming_puback(s, pkid).0 == s,
        !spec_incoming_puback(s, pkid).1,
{
}

/// Law (matching ack): an acknowledgment that matches an outstanding publish
/// retires exactly that publish; no publish with its identifier remains.
pub proof fn lemma_ack_retires_exactly(s: SessionView, pkid: u16, i: int)
    requires
        s.wf(),
        0 <= i < s.outstanding.len(),
        s.outstanding[i].pkid == Some(pkid),
    ensures
        spec_incoming_puback(s, pkid).1,
        spec_incoming_puback(s, pkid).0.outstanding == s.outstanding.remove(i),
        !contains_pkid(spec_incoming_puback(s, pkid).0.outstanding, pkid),
        spec_incoming_puback(s, pkid).0.wf(),
{
    assert(contains_pkid(s.outstanding, pkid));
    assert forall|j: int| 0 <= j < i implies s.outstanding[j].pkid != Some(pkid) by {
        assert(s.outstanding[j].pkid != s.outstanding[i].pkid);
    }
    lemma_remove_pkid_first(s.outstanding, pkid, i);
    lemma_wf_remove(s.outstanding, i, pkid);
}

/// Law (session survival): neither building a fresh Connect, nor the
/// broker's answer to it, nor the reconnection replay itself changes the
/// outstanding queue — session state outlives every transport.
pub proof fn lemma_session_survives_reconnect(s: SessionView, c: Connack)
    ensures
        spec_outgoing_connect(s).0.outstanding == s.outstanding,
        spec_incoming_connack(s, c).0.outstanding == s.outstanding,
        spec_reconnection(s).0.outstanding == s.outstanding,
{
}

/// Whether two publishes carry the same message: topic, payload and delivery
/// level agree; the packet identifier may differ.
pub open spec fn same_message(a: PublishView, b: PublishView) -> bool {
    a.topic == b.topic && a.payload == b.payload && a.qos == b.qos
}

/// The session after a run of QoS-1 publish requests, applied in order.
pub open spec fn spec_publish_run(s: SessionView, ps: Seq<PublishView>) -> SessionView
    decreases ps.len(),
{
    if ps.len() == 0 {
        s
    } else {
        spec_publish_run(
            spec_client_request(s, RequestView::Publish(ps[0])).0,
            ps.drop_first(),
        )
    }
}

/// Whether every publish of the run is a QoS-1 publish that the session
/// accepts (handshake done, payload within limits, an identifier free).
pub open spec fn spec_publish_run_ok(s: SessionView, ps: Seq<PublishView>) -> bool
    decreases ps.len(),
{
    if ps.len() == 0 {
        true
    } else {
        &&& ps[0].qos == QoS::AtLeastOnce
        &&& spec_client_request(s, RequestView::Publish(ps[0])).1 is Ok
        &&& spec_publish_run_ok(
            spec_client_request(s, RequestView::Publish(ps[0])).0,
            ps.drop_first(),
        )
    }
}

/// Law (resumption ordering): after any run of accepted QoS-1 publishes none
/// of which was acknowledged, a reconnection replays the prior outstanding
/// queue followed by exactly the messages of the run, in send order.
pub proof fn lemma_resumption_ordering(s: SessionView, ps: Seq<PublishView>)
    requires
        s.wf(),
        !s.initial_connect,
        spec_publish_run_ok(s, ps),
        s.outstanding.len() + ps.len() > 0,
    ensures
        ({
            let t = spec_publish_run(s, ps);
            &&& t.wf()
            &&& !t.initial_connect
            &&& t.outstanding.len() == s.outstanding.len() + ps.len()
            &&& t.outstanding.subrange(0, s.outstanding.len() as int) == s.outstanding
            &&& forall|i: int|
                0 <= i < ps.len() ==> same_message(
                    #[trigger] t.outstanding[s.outstanding.len() + i],
                    ps[i],
                ) && t.outstanding[s.outstanding.len() + i].pkid is Some
            &&& spec_reconnection(t).1 == Some(t.outstanding)
        }),
    decreases ps.len(),
{
    if ps.len() == 0 {
        assert(spec_publish_run(s, ps) == s);
        assert(s.outstanding.subrange(0, s.outstanding.len() as int) =~= s.outstanding);
    } else {
        let p = ps[0];
        let step = spec_client_request(s, RequestView::Publish(p));
        let s1 = step.0;
        let id = spec_next_pkid(s.next_pkid);
        let assigned = PublishView { pkid: Some(id), ..p };
        assert(step.1 is Ok);
        assert(s1.outstanding == s.outstanding.push(assigned));
        lemma_wf_push(s.outstanding, assigned, id);
        lemma_resumption_ordering(s1, ps.drop_first());
        let t = spec_publish_run(s1, ps.drop_first());
        assert(spec_publish_run(s, ps) == t);
        assert(t.outstanding.subrange(0, s1.outstanding.len() as int) == s1.outstanding);
        assert(t.outstanding.subrange(0, s.outstanding.len() as int) =~= s.outstanding);
        assert(t.outstanding[s.outstanding.len() as int] == s1.outstanding[s.outstanding.len() as int]);
        assert(same_message(assigned, p));
        assert forall|i: int|
            0 <= i < ps.len() implies same_message(
            #[trigger] t.outstanding[s.outstanding.len() + i],
            ps[i],
        ) && t.outstanding[s.outstanding.len() + i].pkid is Some by {
            if i == 0 {
                assert(t.outstanding[s.outstanding.len() as int] == assigned);
            } else {
                assert(s1.outstanding.len() + (i - 1) == s.outstanding.len() + i);
                assert(same_message(t.outstanding[s1.outstanding.len() + (i - 1)], ps.drop_first()[i - 1]));
                assert(ps.drop_first()[i - 1] == ps[i]);
            }
        }
    }
}

} // verus!
