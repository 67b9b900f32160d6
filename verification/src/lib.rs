//! Session-management layer between a device-facing command/telemetry channel
//! and an externally supplied MQTT transport.
//!
//! The crate owns the connect -> subscribe -> publish lifecycle, decodes
//! inbound command payloads with a two-tier (strict, then loose) codec policy,
//! and converts transport-native failures into human-readable text.  The
//! transport itself (framing, retransmission, keep-alive) is an external
//! collaborator: this crate only decides what to ask of it and how to react
//! to its completions.

pub mod canonical;
pub mod decode;
pub mod errors;
pub mod json;
pub mod lifecycle;
pub mod message;
pub mod options;
pub mod qos;
pub mod session;
pub mod text;
