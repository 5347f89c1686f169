//! The wire records of the bridge.
//!
//! A request is framed as a flat JSON-compatible object with `messages`,
//! `custom_key`, `cwd` and `model` members; a response is an object carrying
//! an `output` string and optionally an `error`. The encoding and the
//! parsing are verified against the grammar in `json`.

use crate::errors::BridgeError;
use crate::json::escaped;
use crate::json::hex_digit;
use crate::json::json_string_of;
use crate::json::parse_response_chars;
use crate::json::sp_response;
use crate::text::push_str_chars;
use crate::text::string_from_chars;
use vstd::prelude::*;

verus! {

/// One conversation message of a request.
pub struct Message {
    pub role: String,
    pub content: String,
}

/// The wire request record: conversation messages, an optional caller
/// credential, an optional working directory, and an optional model name.
pub struct ClaudeAgentRequest {
    pub messages: Vec<Message>,
    pub custom_key: Option<String>,
    pub cwd: Option<String>,
    pub model: Option<String>,
}

/// The wire response record; a present `error` takes precedence over
/// whatever `output` holds.
#[derive(Debug, PartialEq, Eq)]
pub struct ClaudeAgentResponse {
    pub output: String,
    pub error: Option<String>,
}

/// The view of an optional string.
pub open spec fn opt_str_view(o: Option<String>) -> Option<Seq<char>> {
    match o {
        None => None,
        Some(s) => Some(s@),
    }
}

/// An optional string member value: a string literal or `null`.
pub open spec fn json_opt_string(v: Option<Seq<char>>) -> Seq<char> {
    match v {
        None => "null"@,
        Some(s) => json_string_of(s),
    }
}

/// The frame of one conversation message.
pub open spec fn json_message(m: Message) -> Seq<char> {
    "{\"role\":"@ + json_string_of(m.role@) + ",\"content\":"@ + json_string_of(m.content@)
        + "}"@
}

/// The comma-separated frames of the messages, in order.
pub open spec fn json_messages(ms: Seq<Message>) -> Seq<char>
    decreases ms.len(),
{
    if ms.len() == 0 {
        Seq::empty()
    } else if ms.len() == 1 {
        json_message(ms.last())
    } else {
        json_messages(ms.drop_last()) + ","@ + json_message(ms.last())
    }
}

/// The complete wire frame of a request.
pub open spec fn spec_encode_request(r: &ClaudeAgentRequest) -> Seq<char> {
    "{\"messages\":["@ + json_messages(r.messages@) + "],\"custom_key\":"@ + json_opt_string(
        opt_str_view(r.custom_key),
    ) + ",\"cwd\":"@ + json_opt_string(opt_str_view(r.cwd)) + ",\"model\":"@ + json_opt_string(
        opt_str_view(r.model),
    ) + "}"@
}

fn hex_digit_exec(n: u32) -> (c: char)
    requires
        n < 16,
    ensures
        c == hex_digit(n as int),
{
    if n == 0 {
        '0'
    } else if n == 1 {
        '1'
    } else if n == 2 {
        '2'
    } else if n == 3 {
        '3'
    } else if n == 4 {
        '4'
    } else if n == 5 {
        '5'
    } else if n == 6 {
        '6'
    } else if n == 7 {
        '7'
    } else if n == 8 {
        '8'
    } else if n == 9 {
        '9'
    } else if n == 10 {
        'a'
    } else if n == 11 {
        'b'
    } else if n == 12 {
        'c'
    } else if n == 13 {
        'd'
    } else if n == 14 {
        'e'
    } else {
        'f'
    }
}

/// Append the JSON string literal for `s`, quotes and escapes included.
fn push_json_string(out: &mut Vec<char>, s: &str)
    ensures
        final(out)@ == old(out)@ + json_string_of(s@),
{
    out.push('"');
    let len = s.unicode_len();
    let mut i: usize = 0;
    while i < len
        invariant
            i <= len,
            len == s@.len(),
            out@ == old(out)@ + seq!['"'] + escaped(s@.take(i as int)),
        decreases len - i,
    {
        let c = s.get_char(i);
        if c == '"' {
            out.push('\\');
            out.push('"');
        } else if c == '\\' {
            out.push('\\');
            out.push('\\');
        } else if c == '\u{8}' {
            out.push('\\');
            out.push('b');
        } else if c == '\u{c}' {
            out.push('\\');
            out.push('f');
        } else if c == '\n' {
            out.push('\\');
            out.push('n');
        } else if c == '\r' {
            out.push('\\');
            out.push('r');
        } else if c == '\t' {
            out.push('\\');
            out.push('t');
        } else if (c as u32) < 0x20 {
            out.push('\\');
            out.push('u');
            out.push('0');
            out.push('0');
            out.push(hex_digit_exec((c as u32) / 16));
            out.push(hex_digit_exec((c as u32) % 16));
        } else {
            out.push(c);
        }
        proof {
            assert(s@.take(i as int + 1).drop_last() =~= s@.take(i as int));
            assert(s@.take(i as int + 1).last() == s@[i as int]);
        }
        i = i + 1;
    }
    out.push('"');
    proof {
        assert(s@.take(len as int) =~= s@);
    }
}

/// Append the member value for an optional string: its literal, or `null`.
fn push_opt_string(out: &mut Vec<char>, o: &Option<String>)
    ensures
        final(out)@ == old(out)@ + json_opt_string(opt_str_view(*o)),
{
    match o {
        None => push_str_chars(out, "null"),
        Some(s) => push_json_string(out, s.as_str()),
    }
}

/// Frame a request for the wire. Encoding never fails: every field is a
/// plain string or absent.
pub fn encode_request(r: &ClaudeAgentRequest) -> (payload: String)
    ensures
        payload@ == spec_encode_request(r),
{
    let mut out: Vec<char> = Vec::new();
    push_str_chars(&mut out, "{\"messages\":[");
    let n = r.messages.len();
    let mut i: usize = 0;
    while i < n
        invariant
            i <= n,
            n == r.messages@.len(),
            out@ == "{\"messages\":["@ + json_messages(r.messages@.take(i as int)),
        decreases n - i,
    {
        if i > 0 {
            push_str_chars(&mut out, ",");
        }
        let m = &r.messages[i];
        push_str_chars(&mut out, "{\"role\":");
        push_json_string(&mut out, m.role.as_str());
        push_str_chars(&mut out, ",\"content\":");
        push_json_string(&mut out, m.content.as_str());
        push_str_chars(&mut out, "}");
        proof {
            let ms = r.messages@;
            assert(ms.take(i as int + 1).drop_last() =~= ms.take(i as int));
            assert(ms.take(i as int + 1).last() == ms[i as int]);
        }
        i = i + 1;
    }
    proof {
        assert(r.messages@.take(n as int) =~= r.messages@);
    }
    push_str_chars(&mut out, "],\"custom_key\":");
    push_opt_string(&mut out, &r.custom_key);
    push_str_chars(&mut out, ",\"cwd\":");
    push_opt_string(&mut out, &r.cwd);
    push_str_chars(&mut out, ",\"model\":");
    push_opt_string(&mut out, &r.model);
    push_str_chars(&mut out, "}");
    string_from_chars(&out)
}

/// What parsing owes for every input: the decoded record exactly when the
/// text is valid wire format, and `ParseError` otherwise.
pub open spec fn parse_outcome_ok(r: Result<ClaudeAgentResponse, BridgeError>, s: Seq<char>) -> bool {
    match sp_response(s) {
        Some(q) => r matches Ok(resp) && resp.output@ == q.0 && opt_str_view(resp.error) == q.1,
        None => r == Err::<ClaudeAgentResponse, BridgeError>(BridgeError::ParseError),
    }
}

/// Decode a wire response string into the typed record.
pub fn parse_wire_response(s: &str) -> (r: Result<ClaudeAgentResponse, BridgeError>)
    ensures
        parse_outcome_ok(r, s@),
{
    let len = s.unicode_len();
    let mut v: Vec<char> = Vec::new();
    let mut i: usize = 0;
    while i < len
        invariant
            i <= len,
            len == s@.len(),
            v@ == s@.take(i as int),
        decreases len - i,
    {
        v.push(s.get_char(i));
        proof {
            assert(s@.take(i as int).push(s@[i as int]) =~= s@.take(i as int + 1));
        }
        i = i + 1;
    }
    proof {
        assert(s@.take(len as int) =~= s@);
    }
    match parse_response_chars(&v) {
        None => Err(BridgeError::ParseError),
        Some(p) => {
            let output = string_from_chars(&p.0);
            let error = match &p.1 {
                None => None,
                Some(e) => Some(string_from_chars(e)),
            };
            Ok(ClaudeAgentResponse { output, error })
        },
    }
}

impl ClaudeAgentResponse {
    /// Translate the record for the caller: a present `error` member wins
    /// over the output, exactly then is the call reported failed.
    pub fn into_result(self) -> (r: Result<String, BridgeError>)
        ensures
            match self.error {
                Some(e) => r matches Err(be) && be matches BridgeError::RemoteError(m) && m@ == e@,
                None => r matches Ok(o) && o@ == self.output@,
            },
    {
        match self.error {
            Some(e) => Err(BridgeError::RemoteError(e)),
            None => Ok(self.output),
        }
    }
}

} // verus!
