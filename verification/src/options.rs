//! Connection and subscription options, and their marshaling into the
//! transport's native field layout.
//!
//! Durations are carried as whole seconds; the host that serializes a wire
//! structure for the transport renders them in the transport's own unit.

use vstd::prelude::*;
use crate::qos::{QoS, qos_level};

verus! {

/// The protocol version requested from the transport on every connect.
pub const MQTT_PROTOCOL_VERSION: i32 = 4;

/// Caller-supplied connection options.
#[derive(Clone, Debug, PartialEq, Eq)]
pub struct MqttConnectOptions {
    pub username: Option<String>,
    pub password: Option<String>,
    pub clean_session: bool,
    pub reconnect: bool,
    pub keep_alive_interval_secs: Option<u64>,
    pub timeout_secs: Option<u64>,
}

impl Default for MqttConnectOptions {
    /// No credentials, no explicit durations, clean session, reconnect on.
    fn default() -> (r: Self)
        ensures
            r.username is None,
            r.password is None,
            r.clean_session,
            r.reconnect,
            r.keep_alive_interval_secs is None,
            r.timeout_secs is None,
    {
        MqttConnectOptions {
            username: None,
            password: None,
            clean_session: true,
            reconnect: true,
            keep_alive_interval_secs: None,
            timeout_secs: None,
        }
    }
}

/// Connect options in the transport's native field layout.  The TLS flag and
/// the protocol version are derived by the session, not supplied by callers.
///
/// The host serializing this for the transport writes the wire names
/// `userName`, `password`, `cleanSession`, `reconnect`, `keepAliveInterval`,
/// `timeout`, `useSSL` and `mqttVersion`, rendering the two durations in the
/// transport's unit of seconds.
#[derive(Clone, Debug, PartialEq, Eq)]
pub struct WireConnectOptions {
    pub user_name: Option<String>,
    pub password: Option<String>,
    pub clean_session: bool,
    pub reconnect: bool,
    pub keep_alive_interval_secs: Option<u64>,
    pub timeout_secs: Option<u64>,
    pub use_ssl: bool,
    pub mqtt_version: i32,
}

impl MqttConnectOptions {
    /// Marshals caller options into the native layout, carrying every caller
    /// field through unchanged and filling in the derived fields.
    pub fn to_wire(self, use_ssl: bool) -> (r: WireConnectOptions)
        ensures
            r.user_name == self.username,
            r.password == self.password,
            r.clean_session == self.clean_session,
            r.reconnect == self.reconnect,
            r.keep_alive_interval_secs == self.keep_alive_interval_secs,
            r.timeout_secs == self.timeout_secs,
            r.use_ssl == use_ssl,
            r.mqtt_version == MQTT_PROTOCOL_VERSION,
    {
        WireConnectOptions {
            user_name: self.username,
            password: self.password,
            clean_session: self.clean_session,
            reconnect: self.reconnect,
            keep_alive_interval_secs: self.keep_alive_interval_secs,
            timeout_secs: self.timeout_secs,
            use_ssl,
            mqtt_version: MQTT_PROTOCOL_VERSION,
        }
    }
}

/// Subscription options in the transport's native field layout: the wire
/// names are `qos` and `timeout`, the timeout in seconds.
#[derive(Clone, Debug, PartialEq, Eq)]
pub struct WireSubscribeOptions {
    pub qos: i32,
    pub timeout_secs: Option<u64>,
}

/// Marshals a subscription request into the native layout: the QoS value as
/// its integer level, and the timeout carried through.
pub fn subscribe_wire_options(qos: QoS, timeout_secs: u64) -> (r: WireSubscribeOptions)
    ensures
        r.qos == qos_level(qos),
        r.timeout_secs == Some(timeout_secs),
{
    WireSubscribeOptions { qos: qos.level(), timeout_secs: Some(timeout_secs) }
}

} // verus!
