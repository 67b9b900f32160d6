//! The two-tier command decode policy.
//!
//! Only messages on the command inbox topic are considered.  For those, the
//! strict tier tries the canonical schema first; on its failure the payload
//! is handed to the generic structured parse, and the loose mapping may still
//! yield a command from the looser legacy shape.  The two tiers exist to
//! tolerate a schema migration: newer producers emit the canonical schema,
//! older and third-party producers a looser shape that must still be
//! accepted.  A payload that satisfies neither tier is dropped without
//! notifying anybody.

use vstd::prelude::*;
use crate::canonical::{canonical_kind, is_kind_byte, lemma_canonical_kind_bytes, parse_canonical};
use crate::json::{JsonValue, generic_json_of, parse_generic};
use crate::text::{ascii_chars, ascii_to_string, is_prefix, starts_with, str_eq};

verus! {

/// An application-level command decoded from an inbound payload.
#[derive(Clone, Debug, PartialEq, Eq)]
pub struct Command {
    pub kind: String,
}

/// Auxiliary metadata the loose mapping may yield beside a command.  The
/// decode policy discards it.
#[derive(Clone, Debug, PartialEq, Eq)]
pub struct LooseMeta {
    pub source: Option<String>,
}

/// The value of the first member of `ms` named `key`, if any.
pub open spec fn lookup_member(ms: Seq<(String, JsonValue)>, key: Seq<char>) -> Option<JsonValue>
    decreases ms.len(),
{
    if ms.len() == 0 {
        None
    } else if ms[0].0@ == key {
        Some(ms[0].1)
    } else {
        lookup_member(ms.drop_first(), key)
    }
}

/// The legacy command kind of a structured document: the document must be an
/// object whose `command` member is a string, and that string is the kind.
pub open spec fn loose_kind(j: JsonValue) -> Option<Seq<char>> {
    match j {
        JsonValue::Obj(ms) => match lookup_member(ms@, "command"@) {
            Some(JsonValue::Str(s)) => Some(s@),
            _ => None,
        },
        _ => None,
    }
}

/// The legacy metadata of a structured document: its `source` member, where
/// that member is a string.
pub open spec fn loose_source(j: JsonValue) -> Option<Seq<char>> {
    match j {
        JsonValue::Obj(ms) => match lookup_member(ms@, "source"@) {
            Some(JsonValue::Str(s)) => Some(s@),
            _ => None,
        },
        _ => None,
    }
}

/// The characters of an optional string.
pub open spec fn option_view(o: Option<String>) -> Option<Seq<char>> {
    match o {
        Some(s) => Some(s@),
        None => None,
    }
}

/// A reference to the value of the first member of `ms` named `key`, if any.
fn lookup_member_exec<'a>(ms: &'a Vec<(String, JsonValue)>, key: &str) -> (r: Option<
    &'a JsonValue,
>)
    ensures
        match r {
            Some(v) => lookup_member(ms@, key@) == Some(*v),
            None => lookup_member(ms@, key@) is None,
        },
{
    let n = ms.len();
    proof {
        assert(ms@.skip(0) =~= ms@);
    }
    let mut i: usize = 0;
    while i < n
        invariant
            0 <= i <= n,
            n == ms@.len(),
            lookup_member(ms@, key@) == lookup_member(ms@.skip(i as int), key@),
        decreases n - i,
    {
        proof {
            assert(ms@.skip(i as int)[0] == ms@[i as int]);
            assert(ms@.skip(i as int).drop_first() =~= ms@.skip(i as int + 1));
        }
        if str_eq(ms[i].0.as_str(), key) {
            return Some(&ms[i].1);
        }
        i += 1;
    }
    proof {
        assert(ms@.skip(i as int).len() == 0);
    }
    None
}

/// The loose mapping over generic structured data, mirroring the legacy
/// producer shape: an object with a `command` member naming the kind, and an
/// optional `source` member as metadata.  Yields nothing on any other shape.
pub fn json2command(j: &JsonValue) -> (r: Option<(LooseMeta, Command)>)
    ensures
        r is Some <==> loose_kind(*j) is Some,
        r matches Some(mc) ==> loose_kind(*j) == Some(mc.1.kind@),
        r matches Some(mc) ==> option_view(mc.0.source) == loose_source(*j),
{
    match j {
        JsonValue::Obj(ms) => {
            let kind = match lookup_member_exec(ms, "command") {
                Some(JsonValue::Str(s)) => s.clone(),
                _ => {
                    return None;
                },
            };
            let source = match lookup_member_exec(ms, "source") {
                Some(JsonValue::Str(s)) => Some(s.clone()),
                _ => None,
            };
            Some((LooseMeta { source }, Command { kind }))
        },
        _ => None,
    }
}

/// The strict tier: the canonical schema alone decides, and the decoded
/// command's kind holds exactly the canonical `kind` characters.
pub fn strict_decode(p: &Vec<u8>) -> (r: Option<Command>)
    ensures
        r is Some <==> canonical_kind(p@) is Some,
        r matches Some(c) ==> c.kind@ == ascii_chars(canonical_kind(p@).unwrap()),
{
    match parse_canonical(p) {
        Some(k) => {
            proof {
                lemma_canonical_kind_bytes(p@);
                assert forall|i: int| 0 <= i < k@.len() implies k@[i] < 0x80 by {
                    assert(is_kind_byte(canonical_kind(p@).unwrap()[i]));
                }
            }
            Some(Command { kind: ascii_to_string(k) })
        },
        None => None,
    }
}

/// The loose tier: the generic structured parse, then the loose mapping,
/// of which only the command component survives.
pub fn loose_decode(p: &Vec<u8>) -> (r: Option<Command>)
    ensures
        r is Some <==> (generic_json_of(p@) matches Some(j) && loose_kind(j) is Some),
        r matches Some(c) ==> loose_kind(generic_json_of(p@).unwrap()) == Some(c.kind@),
{
    match parse_generic(p) {
        Some(j) => match json2command(&j) {
            Some((_meta, c)) => Some(c),
            None => None,
        },
        None => None,
    }
}

/// The topic prefix that marks a message as an inbound command.  The double
/// separator is deliberate: it encodes an empty addressing segment, and the
/// filter matches it literally.
pub open spec fn command_topic_prefix() -> Seq<char> {
    "command/inbox//"@
}

/// Ghost description of what the decode policy does with one delivered
/// message.
pub enum DecodeAct {
    /// The topic is not a command topic: the payload is never looked at and
    /// nobody is notified.
    Ignore,
    /// A command whose kind holds these characters is forwarded.
    Forward(Seq<char>),
    /// A command topic whose payload no tier could decode: the message is
    /// dropped and no observer is notified.  The host may log it; a decode
    /// failure is telemetry, never an error surfaced upward.
    Dropped,
}

/// The decode policy: topic filter, then the strict tier, then the loose
/// tier, in that order, short-circuiting on the first tier that yields.
pub open spec fn decode_act(topic: Seq<char>, payload: Seq<u8>) -> DecodeAct {
    if !is_prefix(command_topic_prefix(), topic) {
        DecodeAct::Ignore
    } else {
        match canonical_kind(payload) {
            Some(k) => DecodeAct::Forward(ascii_chars(k)),
            None => match generic_json_of(payload) {
                Some(j) => match loose_kind(j) {
                    Some(k) => DecodeAct::Forward(k),
                    None => DecodeAct::Dropped,
                },
                None => DecodeAct::Dropped,
            },
        }
    }
}

/// What the decoder did with one delivered message.
#[derive(Clone, Debug, PartialEq, Eq)]
pub enum DecodeOutcome {
    /// Topic off the command inbox: not considered.
    Ignored,
    /// This command is forwarded to the application.
    Forwarded(Command),
    /// Command topic, undecodable payload: dropped.
    Dropped,
}

/// The outcome realizes the ghost act.
pub open spec fn outcome_matches(r: DecodeOutcome, a: DecodeAct) -> bool {
    match r {
        DecodeOutcome::Ignored => a is Ignore,
        DecodeOutcome::Forwarded(c) => a matches DecodeAct::Forward(k) && c.kind@ == k,
        DecodeOutcome::Dropped => a is Dropped,
    }
}

/// Decodes one delivered message under the two-tier policy.
pub fn decode_message(topic: &str, payload: &Vec<u8>) -> (r: DecodeOutcome)
    ensures
        outcome_matches(r, decode_act(topic@, payload@)),
        r is Ignored <==> !is_prefix(command_topic_prefix(), topic@),
{
    if !starts_with(topic, "command/inbox//") {
        return DecodeOutcome::Ignored;
    }
    match strict_decode(payload) {
        Some(c) => DecodeOutcome::Forwarded(c),
        None => match loose_decode(payload) {
            Some(c) => DecodeOutcome::Forwarded(c),
            None => DecodeOutcome::Dropped,
        },
    }
}

/// A payload that satisfies the canonical schema decodes through the strict
/// tier alone: the policy forwards the canonical kind, whatever the generic
/// parse or the loose mapping would say about the same bytes.
pub proof fn lemma_strict_tier_wins(topic: Seq<char>, payload: Seq<u8>)
    requires
        is_prefix(command_topic_prefix(), topic),
        canonical_kind(payload) is Some,
    ensures
        decode_act(topic, payload) == DecodeAct::Forward(ascii_chars(canonical_kind(payload).unwrap())),
{
}

/// A payload that is well-formed structured data but misses the canonical
/// schema decodes exactly when the loose mapping yields a command, and then
/// forwards the kind the loose mapping names; otherwise it is dropped.
pub proof fn lemma_loose_tier_decides(topic: Seq<char>, payload: Seq<u8>)
    requires
        is_prefix(command_topic_prefix(), topic),
        canonical_kind(payload) is None,
        generic_json_of(payload) is Some,
    ensures
        decode_act(topic, payload) == match loose_kind(generic_json_of(payload).unwrap()) {
            Some(k) => DecodeAct::Forward(k),
            None => DecodeAct::Dropped,
        },
{
}

/// A message whose topic does not begin with the command inbox prefix is
/// ignored outright: no decode is attempted and no observer is notified,
/// whatever the payload holds.
pub proof fn lemma_other_topics_ignored(topic: Seq<char>, payload: Seq<u8>)
    requires
        !is_prefix(command_topic_prefix(), topic),
    ensures
        decode_act(topic, payload) == DecodeAct::Ignore,
{
}

} // verus!
