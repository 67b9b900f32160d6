//! The delivered-message type.

use vstd::prelude::*;

verus! {

/// One message delivered by the transport: immutable once delivered, consumed
/// once by the decode policy.
#[derive(Clone, Debug, PartialEq, Eq)]
pub struct MqttMessage {
    pub topic: String,
    pub payload: Vec<u8>,
}

} // verus!
