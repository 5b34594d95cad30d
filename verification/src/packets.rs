//! The MQTT control-packet vocabulary, as plain values.
//!
//! Every type carries a mathematical view (`@`) so that contracts can speak
//! of packet contents as sequences rather than heap values.

use vstd::prelude::*;

verus! {

/// Delivery guarantee requested for a publish.
#[derive(Clone, Copy, Debug, PartialEq, Eq, Structural)]
pub enum QoS {
    AtMostOnce,
    AtLeastOnce,
    ExactlyOnce,
}

/// Broker's verdict on a connect attempt.
#[derive(Clone, Copy, Debug, PartialEq, Eq, Structural)]
pub enum ConnectReturnCode {
    Accepted,
    RefusedProtocolVersion,
    RefusedIdentifierRejected,
    ServerUnavailable,
    BadUsernamePassword,
    NotAuthorized,
}

/// Broker's reply to a Connect packet.
#[derive(Clone, Copy, Debug, PartialEq, Eq, Structural)]
pub struct Connack {
    pub session_present: bool,
    pub code: ConnectReturnCode,
}

/// An application message, either on its way to the broker or delivered by it.
#[derive(Debug, PartialEq)]
pub struct Publish {
    pub topic: String,
    pub payload: Vec<u8>,
    pub qos: QoS,
    pub pkid: Option<u16>,
}

#[verifier::ext_equal]
pub struct PublishView {
    pub topic: Seq<char>,
    pub payload: Seq<u8>,
    pub qos: QoS,
    pub pkid: Option<u16>,
}

impl View for Publish {
    type V = PublishView;

    open spec fn view(&self) -> PublishView {
        PublishView {
            topic: self.topic@,
            payload: self.payload@,
            qos: self.qos,
            pkid: self.pkid,
        }
    }
}

impl Clone for Publish {
    fn clone(&self) -> (r: Self)
        ensures
            r@ == self@,
    {
        let payload = self.payload.clone();
        proof {
            assert(payload@ =~= self.payload@);
        }
        Publish {
            topic: self.topic.clone(),
            payload,
            qos: self.qos,
            pkid: self.pkid,
        }
    }
}

/// The first packet of the handshake, built from the client configuration.
#[derive(Debug, PartialEq)]
pub struct Connect {
    pub client_id: String,
    pub keep_alive: u16,
    pub clean_session: bool,
    pub username: Option<String>,
    pub password: Option<String>,
}

#[verifier::ext_equal]
pub struct ConnectView {
    pub client_id: Seq<char>,
    pub keep_alive: u16,
    pub clean_session: bool,
    pub username: Option<Seq<char>>,
    pub password: Option<Seq<char>>,
}

/// The view of an optional owned string.
pub open spec fn opt_string_view(o: Option<String>) -> Option<Seq<char>> {
    match o {
        Some(s) => Some(s@),
        None => None,
    }
}

impl View for Connect {
    type V = ConnectView;

    open spec fn view(&self) -> ConnectView {
        ConnectView {
            client_id: self.client_id@,
            keep_alive: self.keep_alive,
            clean_session: self.clean_session,
            username: opt_string_view(self.username),
            password: opt_string_view(self.password),
        }
    }
}

/// One topic filter of a subscribe request.
#[derive(Debug, PartialEq)]
pub struct SubscribeTopic {
    pub topic_path: String,
    pub qos: QoS,
}

#[verifier::ext_equal]
pub struct SubscribeTopicView {
    pub topic_path: Seq<char>,
    pub qos: QoS,
}

impl View for SubscribeTopic {
    type V = SubscribeTopicView;

    open spec fn view(&self) -> SubscribeTopicView {
        SubscribeTopicView { topic_path: self.topic_path@, qos: self.qos }
    }
}

/// A subscribe request for a set of topic filters.
#[derive(Debug, PartialEq)]
pub struct Subscribe {
    pub pkid: Option<u16>,
    pub topics: Vec<SubscribeTopic>,
}

#[verifier::ext_equal]
pub struct SubscribeView {
    pub pkid: Option<u16>,
    pub topics: Seq<SubscribeTopicView>,
}

impl View for Subscribe {
    type V = SubscribeView;

    open spec fn view(&self) -> SubscribeView {
        SubscribeView {
            pkid: self.pkid,
            topics: self.topics@.map_values(|t: SubscribeTopic| t@),
        }
    }
}

/// The broker's verdict on one subscribed topic filter.
#[derive(Clone, Copy, Debug, PartialEq, Eq, Structural)]
pub enum SubscribeReturnCode {
    Success(QoS),
    Failure,
}

/// The broker's reply to a Subscribe packet.
#[derive(Debug, PartialEq)]
pub struct Suback {
    pub pkid: u16,
    pub return_codes: Vec<SubscribeReturnCode>,
}

#[verifier::ext_equal]
pub struct SubackView {
    pub pkid: u16,
    pub return_codes: Seq<SubscribeReturnCode>,
}

impl View for Suback {
    type V = SubackView;

    open spec fn view(&self) -> SubackView {
        SubackView { pkid: self.pkid, return_codes: self.return_codes@ }
    }
}

/// A control packet on the wire, in either direction.
#[derive(Debug, PartialEq)]
pub enum Packet {
    Connect(Connect),
    Connack(Connack),
    Publish(Publish),
    Puback(u16),
    Pingreq,
    Pingresp,
    Subscribe(Subscribe),
    Suback(Suback),
    Disconnect,
}

#[verifier::ext_equal]
pub enum PacketView {
    Connect(ConnectView),
    Connack(Connack),
    Publish(PublishView),
    Puback(u16),
    Pingreq,
    Pingresp,
    Subscribe(SubscribeView),
    Suback(SubackView),
    Disconnect,
}

impl View for Packet {
    type V = PacketView;

    open spec fn view(&self) -> PacketView {
        match self {
            Packet::Connect(c) => PacketView::Connect(c@),
            Packet::Connack(c) => PacketView::Connack(*c),
            Packet::Publish(p) => PacketView::Publish(p@),
            Packet::Puback(id) => PacketView::Puback(*id),
            Packet::Pingreq => PacketView::Pingreq,
            Packet::Pingresp => PacketView::Pingresp,
            Packet::Subscribe(s) => PacketView::Subscribe(s@),
            Packet::Suback(s) => PacketView::Suback(s@),
            Packet::Disconnect => PacketView::Disconnect,
        }
    }
}

/// A command from the application (or from an internal task) to the session.
#[derive(Debug, PartialEq)]
pub enum Request {
    Publish(Publish),
    Subscribe(Subscribe),
    Ping,
    Puback(u16),
    Disconnect,
}

#[verifier::ext_equal]
pub enum RequestView {
    Publish(PublishView),
    Subscribe(SubscribeView),
    Ping,
    Puback(u16),
    Disconnect,
}

impl View for Request {
    type V = RequestView;

    open spec fn view(&self) -> RequestView {
        match self {
            Request::Publish(p) => RequestView::Publish(p@),
            Request::Subscribe(s) => RequestView::Subscribe(s@),
            Request::Ping => RequestView::Ping,
            Request::Puback(id) => RequestView::Puback(*id),
            Request::Disconnect => RequestView::Disconnect,
        }
    }
}

} // verus!
