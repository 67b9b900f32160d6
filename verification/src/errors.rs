//! Conversion of transport-native failures into human-readable text.
//!
//! A transport-native error value is opaque to this crate.  The holder of the
//! native value extracts, before calling in, the two readings this policy
//! needs: the error's plain string form, if it has one, and otherwise its
//! rendering as structured data text, if it is structured data.  The policy
//! here guarantees that every failure path produces readable text, never an
//! unrenderable opaque value.

use vstd::prelude::*;
use vstd::string::*;

verus! {

/// What the session reads of one transport-native error value.
#[derive(Clone, Debug, PartialEq, Eq)]
pub struct NativeErrorInfo {
    /// The error's own plain string form, when it is a plain string.
    pub text: Option<String>,
    /// The error rendered as structured data text, when it is structured data.
    pub structured: Option<String>,
}

/// Text reported for a transport failure: the plain string form if there is
/// one, else the structured rendering, else the literal `<unknown>`.
pub open spec fn error_text_spec(e: NativeErrorInfo) -> Seq<char> {
    match e.text {
        Some(t) => t@,
        None => match e.structured {
            Some(s) => s@,
            None => "<unknown>"@,
        },
    }
}

/// Converts a transport failure to the text reported through failure
/// callbacks and connection-lost notifications.
pub fn error_display(e: &NativeErrorInfo) -> (r: String)
    ensures
        r@ == error_text_spec(*e),
{
    match &e.text {
        Some(t) => t.clone(),
        None => match &e.structured {
            Some(s) => s.clone(),
            None => String::from_str("<unknown>"),
        },
    }
}

/// A failure to construct native option objects or to attach completion
/// handlers, surfaced synchronously before any network activity.
#[derive(Clone, Debug, PartialEq, Eq)]
pub struct SetupError {
    pub message: String,
}

/// Text carried by a setup error: the plain string form if there is one, else
/// the structured rendering behind an `Unknown error: ` prefix, else the
/// literal `Unknown error`.
pub open spec fn setup_error_text_spec(e: NativeErrorInfo) -> Seq<char> {
    match e.text {
        Some(t) => t@,
        None => match e.structured {
            Some(s) => "Unknown error: "@ + s@,
            None => "Unknown error"@,
        },
    }
}

/// Converts a native failure met during setup into a setup error.
pub fn setup_error(e: &NativeErrorInfo) -> (r: SetupError)
    ensures
        r.message@ == setup_error_text_spec(*e),
{
    let message = match &e.text {
        Some(t) => t.clone(),
        None => match &e.structured {
            Some(s) => {
                let mut m = String::from_str("Unknown error: ");
                m.append(s.as_str());
                m
            },
            None => String::from_str("Unknown error"),
        },
    };
    SetupError { message }
}

} // verus!
