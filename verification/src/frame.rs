//! Decoding of one inbound line into a tagged frame.
//!
//! Every line the agent writes is inspected exactly once, at this boundary,
//! and the rest of the engine works on the resulting `Frame`: the optional
//! response id, the optional error and result payloads, and the decoded
//! streaming update if the line is a `session/update` notification. A line
//! that is not JSON, or carries none of those, decodes to an all-empty frame
//! and is thereby silently skipped by every consumer.

use vstd::prelude::*;
use crate::jsonq::{json_raw_at, json_str_at, json_u64_at, raw_at, str_at, u64_at};
use crate::text::str_eq;

verus! {

/// A decoded `session/update` notification: the three known update kinds,
/// plus an explicit fallback for tags this engine does not know or payloads
/// missing their text.
pub enum Update {
    /// One fragment of the agent's answer.
    Chunk { text: String },
    /// A tool invocation has started.
    ToolCall { title: String, status: String },
    /// A running tool invocation changed status.
    ToolUpdate { status: String },
    /// A recognized notification envelope whose update is not acted upon.
    Ignored,
}

/// One inbound line, decoded.
pub struct Frame {
    /// The `id` field, when present as an unsigned integer.
    pub response_id: Option<u64>,
    /// The `error` field, rendered back as JSON text, when present.
    pub error: Option<String>,
    /// The `result` field, rendered back as JSON text, when present.
    pub result: Option<String>,
    /// The decoded update, when the line is a `session/update` notification.
    pub update: Option<Update>,
}

/// The response id a line carries.
pub open spec fn frame_id(line: Seq<char>) -> Option<u64> {
    json_u64_at(line, "/id"@)
}

/// The error payload a line carries, as JSON text.
pub open spec fn frame_error(line: Seq<char>) -> Option<Seq<char>> {
    json_raw_at(line, "/error"@)
}

/// The result payload a line carries, as JSON text.
pub open spec fn frame_result(line: Seq<char>) -> Option<Seq<char>> {
    json_raw_at(line, "/result"@)
}

/// Whether a line is a streaming-update notification.
pub open spec fn is_update_notification(line: Seq<char>) -> bool {
    json_str_at(line, "/method"@) == Some("session/update"@)
}

pub open spec fn update_tag(line: Seq<char>) -> Option<Seq<char>> {
    json_str_at(line, "/params/update/sessionUpdate"@)
}

pub open spec fn update_chunk_text(line: Seq<char>) -> Option<Seq<char>> {
    json_str_at(line, "/params/update/content/text"@)
}

pub open spec fn update_title(line: Seq<char>) -> Option<Seq<char>> {
    json_str_at(line, "/params/update/title"@)
}

pub open spec fn update_status(line: Seq<char>) -> Option<Seq<char>> {
    json_str_at(line, "/params/update/status"@)
}

/// An optional string has exactly the optional text `s`.
pub open spec fn opt_text_is(o: Option<String>, s: Option<Seq<char>>) -> bool {
    match o {
        Some(x) => s == Some(x@),
        None => s is None,
    }
}

/// What the decoded update of a line must be: chunk text is kept verbatim, a
/// tool call defaults to "Working"/"pending" where title or status is absent,
/// a tool update defaults to an empty status, and everything else under the
/// notification envelope is explicitly ignored.
pub open spec fn update_decodes_to(line: Seq<char>, u: Option<Update>) -> bool {
    if !is_update_notification(line) {
        u is None
    } else if update_tag(line) == Some("agent_message_chunk"@) {
        match update_chunk_text(line) {
            Some(t) => u matches Some(Update::Chunk { text }) && text@ == t,
            None => u == Some(Update::Ignored),
        }
    } else if update_tag(line) == Some("tool_call"@) {
        u matches Some(Update::ToolCall { title, status })
            && title@ == (match update_title(line) {
                Some(t) => t,
                None => "Working"@,
            })
            && status@ == (match update_status(line) {
                Some(s) => s,
                None => "pending"@,
            })
    } else if update_tag(line) == Some("tool_call_update"@) {
        u matches Some(Update::ToolUpdate { status })
            && status@ == (match update_status(line) {
                Some(s) => s,
                None => Seq::<char>::empty(),
            })
    } else {
        u == Some(Update::Ignored)
    }
}

/// A frame decodes `line` exactly.
pub open spec fn frame_decodes(line: Seq<char>, f: Frame) -> bool {
    &&& f.response_id == frame_id(line)
    &&& opt_text_is(f.error, frame_error(line))
    &&& opt_text_is(f.result, frame_result(line))
    &&& update_decodes_to(line, f.update)
}

fn decode_update(line: &str) -> (u: Option<Update>)
    ensures
        update_decodes_to(line@, u),
{
    let is_upd = match str_at(line, "/method") {
        Some(m) => str_eq(m.as_str(), "session/update"),
        None => false,
    };
    if !is_upd {
        return None;
    }
    match str_at(line, "/params/update/sessionUpdate") {
        Some(t) => {
            if str_eq(t.as_str(), "agent_message_chunk") {
                match str_at(line, "/params/update/content/text") {
                    Some(text) => Some(Update::Chunk { text }),
                    None => Some(Update::Ignored),
                }
            } else if str_eq(t.as_str(), "tool_call") {
                let title = match str_at(line, "/params/update/title") {
                    Some(x) => x,
                    None => String::from_str("Working"),
                };
                let status = match str_at(line, "/params/update/status") {
                    Some(x) => x,
                    None => String::from_str("pending"),
                };
                Some(Update::ToolCall { title, status })
            } else if str_eq(t.as_str(), "tool_call_update") {
                let status = match str_at(line, "/params/update/status") {
                    Some(x) => x,
                    None => String::new(),
                };
                Some(Update::ToolUpdate { status })
            } else {
                Some(Update::Ignored)
            }
        }
        None => Some(Update::Ignored),
    }
}

/// Decode one inbound line into a frame.
pub fn decode_frame(line: &str) -> (r: Frame)
    ensures
        frame_decodes(line@, r),
{
    Frame {
        response_id: u64_at(line, "/id"),
        error: raw_at(line, "/error"),
        result: raw_at(line, "/result"),
        update: decode_update(line),
    }
}

} // verus!
