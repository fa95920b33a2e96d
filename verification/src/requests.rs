//! Outbound side of the wire protocol: JSON string escaping and the builders
//! for every request line the engine can send. Each builder's contract gives
//! the exact character sequence that goes on the wire.

use vstd::prelude::*;
use crate::text::{dec_digits, push_decimal};

verus! {

/// The character for one hexadecimal digit, lower case.
pub open spec fn hex_char(d: nat) -> char {
    if d == 0 {
        '0'
    } else if d == 1 {
        '1'
    } else if d == 2 {
        '2'
    } else if d == 3 {
        '3'
    } else if d == 4 {
        '4'
    } else if d == 5 {
        '5'
    } else if d == 6 {
        '6'
    } else if d == 7 {
        '7'
    } else if d == 8 {
        '8'
    } else if d == 9 {
        '9'
    } else if d == 10 {
        'a'
    } else if d == 11 {
        'b'
    } else if d == 12 {
        'c'
    } else if d == 13 {
        'd'
    } else if d == 14 {
        'e'
    } else {
        'f'
    }
}

/// How one character is written inside a JSON string literal: the two-letter
/// escapes of the format, `\u00..` for the remaining control characters, and
/// every other character as itself.
pub open spec fn esc_char(c: char) -> Seq<char> {
    if c == '"' {
        seq!['\\', '"']
    } else if c == '\\' {
        seq!['\\', '\\']
    } else if c == '\u{8}' {
        seq!['\\', 'b']
    } else if c == '\u{9}' {
        seq!['\\', 't']
    } else if c == '\u{a}' {
        seq!['\\', 'n']
    } else if c == '\u{c}' {
        seq!['\\', 'f']
    } else if c == '\u{d}' {
        seq!['\\', 'r']
    } else if (c as u32) < 32 {
        seq!['\\', 'u', '0', '0', hex_char((c as u32 / 16) as nat), hex_char((c as u32 % 16) as nat)]
    } else {
        seq![c]
    }
}

/// The body of a JSON string literal holding exactly the text `s`.
pub open spec fn json_escaped(s: Seq<char>) -> Seq<char>
    decreases s.len(),
{
    if s.len() == 0 {
        Seq::empty()
    } else {
        json_escaped(s.drop_last()) + esc_char(s.last())
    }
}

fn hex_digit_str(d: u32) -> (s: &'static str)
    requires
        d < 16,
    ensures
        s@ == seq![hex_char(d as nat)],
{
    let s: &'static str = if d == 0 {
        "0"
    } else if d == 1 {
        "1"
    } else if d == 2 {
        "2"
    } else if d == 3 {
        "3"
    } else if d == 4 {
        "4"
    } else if d == 5 {
        "5"
    } else if d == 6 {
        "6"
    } else if d == 7 {
        "7"
    } else if d == 8 {
        "8"
    } else if d == 9 {
        "9"
    } else if d == 10 {
        "a"
    } else if d == 11 {
        "b"
    } else if d == 12 {
        "c"
    } else if d == 13 {
        "d"
    } else if d == 14 {
        "e"
    } else {
        "f"
    };
    proof {
        reveal_strlit("0");
        reveal_strlit("1");
        reveal_strlit("2");
        reveal_strlit("3");
        reveal_strlit("4");
        reveal_strlit("5");
        reveal_strlit("6");
        reveal_strlit("7");
        reveal_strlit("8");
        reveal_strlit("9");
        reveal_strlit("a");
        reveal_strlit("b");
        reveal_strlit("c");
        reveal_strlit("d");
        reveal_strlit("e");
        reveal_strlit("f");
        assert(s@ =~= seq![hex_char(d as nat)]);
    }
    s
}

/// Append `s` to `out` in JSON string-literal form (without the quotes).
pub fn append_escaped(s: &str, out: &mut String)
    ensures
        final(out)@ == old(out)@ + json_escaped(s@),
{
    let n = s.unicode_len();
    let mut i: usize = 0;
    while i < n
        invariant
            i <= n,
            n == s@.len(),
            out@ == old(out)@ + json_escaped(s@.take(i as int)),
        decreases n - i,
    {
        let c = s.get_char(i);
        let ghost pre = out@;
        if c == '"' {
            out.append("\\\"");
            proof {
                reveal_strlit("\\\"");
                assert(out@ =~= pre + esc_char(c));
            }
        } else if c == '\\' {
            out.append("\\\\");
            proof {
                reveal_strlit("\\\\");
                assert(out@ =~= pre + esc_char(c));
            }
        } else if c == '\u{8}' {
            out.append("\\b");
            proof {
                reveal_strlit("\\b");
                assert(out@ =~= pre + esc_char(c));
            }
        } else if c == '\u{9}' {
            out.append("\\t");
            proof {
                reveal_strlit("\\t");
                assert(out@ =~= pre + esc_char(c));
            }
        } else if c == '\u{a}' {
            out.append("\\n");
            proof {
                reveal_strlit("\\n");
                assert(out@ =~= pre + esc_char(c));
            }
        } else if c == '\u{c}' {
            out.append("\\f");
            proof {
                reveal_strlit("\\f");
                assert(out@ =~= pre + esc_char(c));
            }
        } else if c == '\u{d}' {
            out.append("\\r");
            proof {
                reveal_strlit("\\r");
                assert(out@ =~= pre + esc_char(c));
            }
        } else if (c as u32) < 32 {
            out.append("\\u00");
            out.append(hex_digit_str(c as u32 / 16));
            out.append(hex_digit_str(c as u32 % 16));
            proof {
                reveal_strlit("\\u00");
                assert(out@ =~= pre + esc_char(c));
            }
        } else {
            let piece = s.substring_char(i, i + 1);
            out.append(piece);
            proof {
                assert(s@.subrange(i as int, i + 1) =~= seq![s@[i as int]]);
                assert(out@ =~= pre + esc_char(c));
            }
        }
        proof {
            assert(s@.take(i + 1).drop_last() =~= s@.take(i as int));
            assert(s@.take(i + 1).last() == s@[i as int]);
            assert(out@ =~= old(out)@ + json_escaped(s@.take(i + 1)));
        }
        i += 1;
    }
    proof {
        assert(s@.take(n as int) =~= s@);
    }
}

/// One full JSON-RPC 2.0 request line (object keys in sorted order, as the
/// wire format writes them), without the trailing newline.
pub open spec fn request_text(id: nat, method: Seq<char>, params: Seq<char>) -> Seq<char> {
    "{\"id\":"@ + dec_digits(id) + ",\"jsonrpc\":\"2.0\",\"method\":\""@ + method
        + "\",\"params\":"@ + params + "}"@
}

/// Serialize the request object for `id`, `method` and the pre-rendered
/// `params` JSON text.
pub fn encode_request(id: u64, method: &str, params: &str) -> (r: String)
    ensures
        r@ == request_text(id as nat, method@, params@),
{
    let mut r = String::from_str("{\"id\":");
    push_decimal(id, &mut r);
    r.append(",\"jsonrpc\":\"2.0\",\"method\":\"");
    r.append(method);
    r.append("\",\"params\":");
    r.append(params);
    r.append("}");
    proof {
        assert(r@ =~= request_text(id as nat, method@, params@));
    }
    r
}

/// Parameters of the capability-negotiation request.
pub open spec fn init_params_text() -> Seq<char> {
    "{\"clientCapabilities\":{},\"clientInfo\":{\"name\":\"kiro-notebook\",\"version\":\"0.1.0\"},\"protocolVersion\":1}"@
}

pub fn init_params() -> (r: String)
    ensures
        r@ == init_params_text(),
{
    String::from_str(
        "{\"clientCapabilities\":{},\"clientInfo\":{\"name\":\"kiro-notebook\",\"version\":\"0.1.0\"},\"protocolVersion\":1}",
    )
}

/// Parameters of a session-creation request: the working directory and an
/// empty tool-server list.
pub open spec fn new_session_params_text(cwd: Seq<char>) -> Seq<char> {
    "{\"cwd\":\""@ + json_escaped(cwd) + "\",\"mcpServers\":[]}"@
}

pub fn new_session_params(cwd: &str) -> (r: String)
    ensures
        r@ == new_session_params_text(cwd@),
{
    let mut r = String::from_str("{\"cwd\":\"");
    append_escaped(cwd, &mut r);
    r.append("\",\"mcpServers\":[]}");
    proof {
        assert(r@ =~= new_session_params_text(cwd@));
    }
    r
}

/// Parameters of a session-load request.
pub open spec fn load_session_params_text(session_id: Seq<char>, cwd: Seq<char>) -> Seq<char> {
    "{\"cwd\":\""@ + json_escaped(cwd) + "\",\"mcpServers\":[],\"sessionId\":\""@
        + json_escaped(session_id) + "\"}"@
}

pub fn load_session_params(session_id: &str, cwd: &str) -> (r: String)
    ensures
        r@ == load_session_params_text(session_id@, cwd@),
{
    let mut r = String::from_str("{\"cwd\":\"");
    append_escaped(cwd, &mut r);
    r.append("\",\"mcpServers\":[],\"sessionId\":\"");
    append_escaped(session_id, &mut r);
    r.append("\"}");
    proof {
        assert(r@ =~= load_session_params_text(session_id@, cwd@));
    }
    r
}

/// Parameters of a model-selection request.
pub open spec fn set_model_params_text(session_id: Seq<char>, model_id: Seq<char>) -> Seq<char> {
    "{\"modelId\":\""@ + json_escaped(model_id) + "\",\"sessionId\":\""@
        + json_escaped(session_id) + "\"}"@
}

pub fn set_model_params(session_id: &str, model_id: &str) -> (r: String)
    ensures
        r@ == set_model_params_text(session_id@, model_id@),
{
    let mut r = String::from_str("{\"modelId\":\"");
    append_escaped(model_id, &mut r);
    r.append("\",\"sessionId\":\"");
    append_escaped(session_id, &mut r);
    r.append("\"}");
    proof {
        assert(r@ =~= set_model_params_text(session_id@, model_id@));
    }
    r
}

/// Parameters of a prompt request: one text block plus the session id.
pub open spec fn prompt_params_text(session_id: Seq<char>, text: Seq<char>) -> Seq<char> {
    "{\"prompt\":[{\"text\":\""@ + json_escaped(text) + "\",\"type\":\"text\"}],\"sessionId\":\""@
        + json_escaped(session_id) + "\"}"@
}

pub fn prompt_params(session_id: &str, text: &str) -> (r: String)
    ensures
        r@ == prompt_params_text(session_id@, text@),
{
    let mut r = String::from_str("{\"prompt\":[{\"text\":\"");
    append_escaped(text, &mut r);
    r.append("\",\"type\":\"text\"}],\"sessionId\":\"");
    append_escaped(session_id, &mut r);
    r.append("\"}");
    proof {
        assert(r@ =~= prompt_params_text(session_id@, text@));
    }
    r
}

/// The request id reserved for out-of-band cancellation. It is never drawn
/// from an engine's monotonic counter, so the correlation loop will not match
/// it against a pending call.
pub const CANCEL_REQUEST_ID: u64 = 99999;

/// The complete cancellation request line for a session.
pub open spec fn cancel_request_text(session_id: Seq<char>) -> Seq<char> {
    request_text(
        CANCEL_REQUEST_ID as nat,
        "session/cancel"@,
        "{\"sessionId\":\""@ + json_escaped(session_id) + "\"}"@,
    )
}

/// Build the out-of-band cancellation request. It depends on no engine state,
/// so it can be produced and written while a streaming call is in flight.
pub fn cancel_request(session_id: &str) -> (r: String)
    ensures
        r@ == cancel_request_text(session_id@),
{
    let mut params = String::from_str("{\"sessionId\":\"");
    append_escaped(session_id, &mut params);
    params.append("\"}");
    proof {
        assert(params@ =~= "{\"sessionId\":\""@ + json_escaped(session_id@) + "\"}"@);
    }
    encode_request(CANCEL_REQUEST_ID, "session/cancel", params.as_str())
}

} // verus!
