//! Client configuration consumed by the session engine.

use vstd::prelude::*;
use crate::packets::opt_string_view;

verus! {

/// What to do after a connection attempt fails.
#[derive(Clone, Copy, Debug, PartialEq, Eq, Structural)]
pub enum ReconnectOptions {
    /// Any failure terminates the engine permanently.
    Never,
    /// Retry forever after the given delay in seconds, but only once some
    /// connection has succeeded; a failure before the first success is final.
    AfterFirstSuccess(u16),
    /// Retry forever after the given delay in seconds, even before the first
    /// success.
    Always(u16),
}

/// Configuration of one client instance.
#[derive(Debug, PartialEq)]
pub struct MqttOptions {
    /// Broker address, re-resolved on every connection attempt.
    pub broker_addr: String,
    /// Client identifier sent in the Connect packet.
    pub client_id: String,
    /// Keep-alive interval in seconds; absence disables the ping timer.
    pub keep_alive: Option<u16>,
    /// Whether the broker should discard any previous session.
    pub clean_session: bool,
    /// Credentials sent in the Connect packet, if any.
    pub username: Option<String>,
    pub password: Option<String>,
    /// Policy applied after a failed connection attempt.
    pub reconnect: ReconnectOptions,
}

#[verifier::ext_equal]
pub struct MqttOptionsView {
    pub broker_addr: Seq<char>,
    pub client_id: Seq<char>,
    pub keep_alive: Option<u16>,
    pub clean_session: bool,
    pub username: Option<Seq<char>>,
    pub password: Option<Seq<char>>,
    pub reconnect: ReconnectOptions,
}

impl View for MqttOptions {
    type V = MqttOptionsView;

    open spec fn view(&self) -> MqttOptionsView {
        MqttOptionsView {
            broker_addr: self.broker_addr@,
            client_id: self.client_id@,
            keep_alive: self.keep_alive,
            clean_session: self.clean_session,
            username: opt_string_view(self.username),
            password: opt_string_view(self.password),
            reconnect: self.reconnect,
        }
    }
}

impl Clone for MqttOptions {
    fn clone(&self) -> (r: Self)
        ensures
            r@ == self@,
    {
        MqttOptions {
            broker_addr: self.broker_addr.clone(),
            client_id: self.client_id.clone(),
            keep_alive: self.keep_alive,
            clean_session: self.clean_session,
            username: clone_opt_string(&self.username),
            password: clone_opt_string(&self.password),
            reconnect: self.reconnect,
        }
    }
}

/// Clones an optional owned string, keeping its view.
pub fn clone_opt_string(o: &Option<String>) -> (r: Option<String>)
    ensures
        opt_string_view(r) == opt_string_view(*o),
{
    match o {
        Some(s) => Some(s.clone()),
        None => None,
    }
}

} // verus!
