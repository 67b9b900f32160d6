//! The session manager: single point of interaction with one transport
//! instance.
//!
//! It owns the client identity, derives the TLS flag from the endpoint
//! scheme, and retains each single-fire completion handler for exactly the
//! lifetime of the request it answers: a handler is registered before the
//! request is issued and released on its first invocation, never dropped
//! while the request is still outstanding.

use vstd::prelude::*;
use crate::options::{MqttConnectOptions, WireConnectOptions, WireSubscribeOptions, subscribe_wire_options, MQTT_PROTOCOL_VERSION};
use crate::qos::{QoS, qos_level};
use crate::text::{is_prefix, starts_with};

verus! {

/// Relies on `uuid::Uuid::new_v4` and its hyphenated text form: a freshly
/// drawn random identifier renders as 36 characters.  Nothing more is
/// assumed of a random value.
#[verifier::external_body]
fn fresh_client_id() -> (r: String)
    ensures
        r@.len() == 36,
{
    uuid::Uuid::new_v4().to_string()
}

/// Completion-handler bookkeeping and connection identity for one transport
/// instance.  `connect_pending` and `subscribe_pending` say that a handler
/// pair is registered and retained for a request still outstanding.
pub struct SessionManager {
    pub client_id: String,
    pub use_ssl: bool,
    pub connect_pending: bool,
    pub subscribe_pending: bool,
}

impl SessionManager {
    /// A new session for an endpoint: TLS exactly for the `wss://` scheme,
    /// the given client identity or a fresh random one, and no pending
    /// request.
    pub fn new(endpoint: &str, client_id: Option<String>) -> (r: SessionManager)
        ensures
            r.use_ssl == is_prefix("wss://"@, endpoint@),
            client_id matches Some(id) ==> r.client_id == id,
            client_id is None ==> r.client_id@.len() == 36,
            !r.connect_pending,
            !r.subscribe_pending,
    {
        let id = match client_id {
            Some(id) => id,
            None => fresh_client_id(),
        };
        SessionManager {
            client_id: id,
            use_ssl: starts_with(endpoint, "wss://"),
            connect_pending: false,
            subscribe_pending: false,
        }
    }

    /// Prepares a connect: marshals the caller options into the native
    /// layout and registers the single-fire completion handler pair, which
    /// stays retained until released by [`Self::connect_completed`].  No
    /// earlier connect may still be outstanding.
    pub fn begin_connect(&mut self, options: MqttConnectOptions) -> (r: WireConnectOptions)
        requires
            !old(self).connect_pending,
        ensures
            final(self).connect_pending,
            final(self).subscribe_pending == old(self).subscribe_pending,
            final(self).client_id == old(self).client_id,
            final(self).use_ssl == old(self).use_ssl,
            r.user_name == options.username,
            r.password == options.password,
            r.clean_session == options.clean_session,
            r.reconnect == options.reconnect,
            r.keep_alive_interval_secs == options.keep_alive_interval_secs,
            r.timeout_secs == options.timeout_secs,
            r.use_ssl == old(self).use_ssl,
            r.mqtt_version == MQTT_PROTOCOL_VERSION,
    {
        self.connect_pending = true;
        options.to_wire(self.use_ssl)
    }

    /// The connect completion fired: the handler pair is released, exactly
    /// once per registration.
    pub fn connect_completed(&mut self)
        requires
            old(self).connect_pending,
        ensures
            !final(self).connect_pending,
            final(self).subscribe_pending == old(self).subscribe_pending,
            final(self).client_id == old(self).client_id,
            final(self).use_ssl == old(self).use_ssl,
    {
        self.connect_pending = false;
    }

    /// Prepares a subscribe, symmetric to [`Self::begin_connect`]: an
    /// independent handler pair per call, retained while the request is
    /// outstanding.
    pub fn begin_subscribe(&mut self, qos: QoS, timeout_secs: u64) -> (r: WireSubscribeOptions)
        requires
            !old(self).subscribe_pending,
        ensures
            final(self).subscribe_pending,
            final(self).connect_pending == old(self).connect_pending,
            final(self).client_id == old(self).client_id,
            final(self).use_ssl == old(self).use_ssl,
            r.qos == qos_level(qos),
            r.timeout_secs == Some(timeout_secs),
    {
        self.subscribe_pending = true;
        subscribe_wire_options(qos, timeout_secs)
    }

    /// The subscribe completion fired: the handler pair is released, exactly
    /// once per registration.
    pub fn subscribe_completed(&mut self)
        requires
            old(self).subscribe_pending,
        ensures
            !final(self).subscribe_pending,
            final(self).connect_pending == old(self).connect_pending,
            final(self).client_id == old(self).client_id,
            final(self).use_ssl == old(self).use_ssl,
    {
        self.subscribe_pending = false;
    }
}

} // verus!
