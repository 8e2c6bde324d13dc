//! Wire codec for the line-delimited JSON-RPC protocol spoken with the
//! engine subprocess.
//!
//! Outbound messages are framed by verified code with an exact
//! character-level contract. Inbound lines are read through a small set of
//! trusted accessors over `serde_json`, and the classification of a line
//! into response, server request, notification or malformed is verified.

use vstd::prelude::*;
use vstd::string::StrSliceExecFns;

use crate::strutil::{dec_str, u64_to_dec};

verus! {

// ---------------------------------------------------------------------
// Inbound: trusted field accessors over serde_json.
// ---------------------------------------------------------------------

/// The unsigned "id" field of the JSON object on `line`, if the line parses
/// as an object carrying one.
pub uninterp spec fn wire_id_of(line: Seq<char>) -> Option<u64>;

/// The string "method" field of the JSON object on `line`, if present.
pub uninterp spec fn wire_method_of(line: Seq<char>) -> Option<Seq<char>>;

/// The "result" field of the JSON object on `line`, rendered back to JSON
/// text, if present.
pub uninterp spec fn wire_result_of(line: Seq<char>) -> Option<Seq<char>>;

/// The "error" field of the JSON object on `line`, if it is an error object
/// carrying an integer `code` and a string `message`.
pub uninterp spec fn wire_error_of(line: Seq<char>) -> Option<(i64, Seq<char>)>;

/// The "params" field of the JSON object on `line`, rendered back to JSON
/// text, if present.
pub uninterp spec fn wire_params_of(line: Seq<char>) -> Option<Seq<char>>;

/// Relies on `serde_json::from_str` and `Value::get`/`as_u64`: the unsigned
/// "id" field of the object on the line, a function of the line alone.
#[verifier::external_body]
fn wire_id(line: &str) -> (r: Option<u64>)
    ensures
        r == wire_id_of(line@),
{
    serde_json::from_str::<serde_json::Value>(line)
        .ok()
        .and_then(|v| v.get("id").and_then(|x| x.as_u64()))
}

/// Relies on `serde_json::from_str` and `Value::get`/`as_str`: the string
/// "method" field of the object on the line, a function of the line alone.
#[verifier::external_body]
fn wire_method(line: &str) -> (r: Option<String>)
    ensures
        r is Some <==> wire_method_of(line@) is Some,
        r matches Some(m) ==> wire_method_of(line@) == Some(m@),
{
    serde_json::from_str::<serde_json::Value>(line)
        .ok()
        .and_then(|v| v.get("method").and_then(|x| x.as_str().map(|s| s.to_string())))
}

/// Relies on `serde_json::from_str`/`Value::get`/`serde_json::to_string`:
/// the "result" field of the object on the line, rendered back to JSON text,
/// a function of the line alone.
#[verifier::external_body]
fn wire_result(line: &str) -> (r: Option<String>)
    ensures
        r is Some <==> wire_result_of(line@) is Some,
        r matches Some(t) ==> wire_result_of(line@) == Some(t@),
{
    serde_json::from_str::<serde_json::Value>(line)
        .ok()
        .and_then(|v| v.get("result").and_then(|x| serde_json::to_string(x).ok()))
}

/// Relies on `serde_json::from_str` and `Value` accessors: the well-formed
/// error object of the line (integer `code`, string `message`), a function
/// of the line alone.
#[verifier::external_body]
fn wire_error(line: &str) -> (r: Option<(i64, String)>)
    ensures
        r is Some <==> wire_error_of(line@) is Some,
        r matches Some(e) ==> wire_error_of(line@) == Some((e.0, e.1@)),
{
    serde_json::from_str::<serde_json::Value>(line).ok().and_then(|v| {
        let e = v.get("error")?;
        Some((e.get("code")?.as_i64()?, e.get("message")?.as_str()?.to_string()))
    })
}

/// Relies on `serde_json::from_str`/`Value::get`/`serde_json::to_string`:
/// the "params" field of the object on the line, rendered back to JSON text,
/// a function of the line alone.
#[verifier::external_body]
fn wire_params(line: &str) -> (r: Option<String>)
    ensures
        r is Some <==> wire_params_of(line@) is Some,
        r matches Some(t) ==> wire_params_of(line@) == Some(t@),
{
    serde_json::from_str::<serde_json::Value>(line)
        .ok()
        .and_then(|v| v.get("params").and_then(|x| serde_json::to_string(x).ok()))
}

// ---------------------------------------------------------------------
// Message classification.
// ---------------------------------------------------------------------

/// An error object returned by the subprocess for one of our calls.
#[derive(Debug, Clone)]
pub struct WireError {
    pub code: i64,
    pub message: String,
}

/// An inbound line, classified by which fields are present.
#[derive(Debug)]
pub enum Message {
    /// A response to one of our calls: "id" present, "method" absent.
    Response { id: u64, outcome: Result<String, WireError> },
    /// A request issued by the subprocess itself: "id" and "method" present.
    ServerRequest { id: u64, method: String, params: String },
    /// A one-way notification: "method" present, "id" absent.
    Notification { method: String, params: String },
    /// None of the above, or the line does not parse as JSON.
    Malformed,
}

/// What a classified line must look like, in terms of the field accessors.
pub open spec fn classified(line: Seq<char>, r: Message) -> bool {
    match r {
        Message::Response { id, outcome } => {
            &&& wire_id_of(line) == Some(id)
            &&& wire_method_of(line) is None
            &&& match outcome {
                Ok(res) => {
                    &&& wire_error_of(line) is None
                    &&& match wire_result_of(line) {
                        Some(t) => res@ == t,
                        None => res@ == seq!['n', 'u', 'l', 'l'],
                    }
                },
                Err(we) => wire_error_of(line) == Some((we.code, we.message@)),
            }
        },
        Message::ServerRequest { id, method, params } => {
            &&& wire_id_of(line) == Some(id)
            &&& wire_method_of(line) == Some(method@)
            &&& match wire_params_of(line) {
                Some(t) => params@ == t,
                None => params@ == seq!['{', '}'],
            }
        },
        Message::Notification { method, params } => {
            &&& wire_id_of(line) is None
            &&& wire_method_of(line) == Some(method@)
            &&& match wire_params_of(line) {
                Some(t) => params@ == t,
                None => params@ == seq!['n', 'u', 'l', 'l'],
            }
        },
        Message::Malformed => {
            &&& wire_id_of(line) is None
            &&& wire_method_of(line) is None
        },
    }
}

/// Classify one inbound line by the presence of its "id", "method",
/// "result" and "error" fields.
pub fn classify(line: &str) -> (r: Message)
    ensures
        classified(line@, r),
{
    proof {
        reveal_strlit("null");
        reveal_strlit("{}");
    }
    let id = wire_id(line);
    let method = wire_method(line);
    match (id, method) {
        (Some(id), None) => {
            match wire_error(line) {
                Some((code, message)) => {
                    Message::Response { id, outcome: Err(WireError { code, message }) }
                },
                None => {
                    let res = match wire_result(line) {
                        Some(t) => t,
                        None => {
                            let n = String::from_str("null");
                            proof {
                                assert(n@ =~= seq!['n', 'u', 'l', 'l']);
                            }
                            n
                        },
                    };
                    Message::Response { id, outcome: Ok(res) }
                },
            }
        },
        (Some(id), Some(method)) => {
            let params = match wire_params(line) {
                Some(t) => t,
                None => {
                    let p = String::from_str("{}");
                    proof {
                        assert(p@ =~= seq!['{', '}']);
                    }
                    p
                },
            };
            Message::ServerRequest { id, method, params }
        },
        (None, Some(method)) => {
            let params = match wire_params(line) {
                Some(t) => t,
                None => {
                    let p = String::from_str("null");
                    proof {
                        assert(p@ =~= seq!['n', 'u', 'l', 'l']);
                    }
                    p
                },
            };
            Message::Notification { method, params }
        },
        (None, None) => Message::Malformed,
    }
}

// ---------------------------------------------------------------------
// Outbound: verified framing.
// ---------------------------------------------------------------------

/// The hexadecimal digit `d` as a lower-case character.
pub open spec fn hex_digit_char(d: int) -> char {
    if d == 0 { '0' }
    else if d == 1 { '1' }
    else if d == 2 { '2' }
    else if d == 3 { '3' }
    else if d == 4 { '4' }
    else if d == 5 { '5' }
    else if d == 6 { '6' }
    else if d == 7 { '7' }
    else if d == 8 { '8' }
    else if d == 9 { '9' }
    else if d == 10 { 'a' }
    else if d == 11 { 'b' }
    else if d == 12 { 'c' }
    else if d == 13 { 'd' }
    else if d == 14 { 'e' }
    else { 'f' }
}

/// How one character is written inside a JSON string.
pub open spec fn json_escaped_char(c: char) -> Seq<char> {
    if c == '"' { seq!['\\', '"'] }
    else if c == '\\' { seq!['\\', '\\'] }
    else if c == '\n' { seq!['\\', 'n'] }
    else if c == '\r' { seq!['\\', 'r'] }
    else if c == '\t' { seq!['\\', 't'] }
    else if (c as u32) < 32 {
        seq!['\\', 'u', '0', '0', hex_digit_char(c as u32 as int / 16), hex_digit_char(
            c as u32 as int % 16,
        )]
    } else { seq![c] }
}

/// How a whole string is written inside JSON quotes.
pub open spec fn json_escaped(s: Seq<char>) -> Seq<char>
    decreases s.len(),
{
    if s.len() == 0 {
        Seq::empty()
    } else {
        json_escaped_char(s[0]) + json_escaped(s.skip(1))
    }
}

proof fn lemma_json_escaped_snoc(t: Seq<char>, c: char)
    ensures
        json_escaped(t.push(c)) == json_escaped(t) + json_escaped_char(c),
    decreases t.len(),
{
    if t.len() == 0 {
        assert(t.push(c)[0] == c);
        assert(t.push(c).skip(1) =~= Seq::<char>::empty());
        assert(json_escaped(t.push(c).skip(1)) =~= Seq::<char>::empty());
        assert(json_escaped(t.push(c)) =~= json_escaped(t) + json_escaped_char(c));
    } else {
        assert(t.push(c).skip(1) =~= t.skip(1).push(c));
        lemma_json_escaped_snoc(t.skip(1), c);
        assert(t.push(c)[0] == t[0]);
        assert(json_escaped(t.push(c)) == json_escaped_char(t[0]) + json_escaped(
            t.skip(1).push(c),
        ));
        assert(json_escaped(t.push(c)) =~= json_escaped(t) + json_escaped_char(c));
    }
}

fn hex_digit_to_str(d: u32) -> (r: &'static str)
    requires
        d < 16,
    ensures
        r@ == seq![hex_digit_char(d as int)],
{
    proof {
        reveal_strlit("0");
        reveal_strlit("1");
        reveal_strlit("2");
        reveal_strlit("3");
        reveal_strlit("4");
        reveal_strlit("5");
        reveal_strlit("6");
        reveal_strlit("7");
        reveal_strlit("8");
        reveal_strlit("9");
        reveal_strlit("a");
        reveal_strlit("b");
        reveal_strlit("c");
        reveal_strlit("d");
        reveal_strlit("e");
        reveal_strlit("f");
    }
    let r = if d == 0 { "0" }
    else if d == 1 { "1" }
    else if d == 2 { "2" }
    else if d == 3 { "3" }
    else if d == 4 { "4" }
    else if d == 5 { "5" }
    else if d == 6 { "6" }
    else if d == 7 { "7" }
    else if d == 8 { "8" }
    else if d == 9 { "9" }
    else if d == 10 { "a" }
    else if d == 11 { "b" }
    else if d == 12 { "c" }
    else if d == 13 { "d" }
    else if d == 14 { "e" }
    else { "f" };
    proof {
        assert(r@ =~= seq![hex_digit_char(d as int)]);
    }
    r
}

/// Append `s`, JSON-escaped, to `out`.
pub(crate) fn append_json_escaped(out: &mut String, s: &str)
    ensures
        final(out)@ == old(out)@ + json_escaped(s@),
{
    proof {
        reveal_strlit("\\\"");
        reveal_strlit("\\\\");
        reveal_strlit("\\n");
        reveal_strlit("\\r");
        reveal_strlit("\\t");
        reveal_strlit("\\u00");
    }
    let n = s.unicode_len();
    let mut i: usize = 0;
    proof {
        assert(s@.take(0) =~= Seq::<char>::empty());
        assert(out@ =~= old(out)@ + json_escaped(s@.take(0)));
    }
    while i < n
        invariant
            n == s@.len(),
            0 <= i <= n,
            out@ == old(out)@ + json_escaped(s@.take(i as int)),
        decreases n - i,
    {
        proof {
            reveal_strlit("\\\"");
            reveal_strlit("\\\\");
            reveal_strlit("\\n");
            reveal_strlit("\\r");
            reveal_strlit("\\t");
            reveal_strlit("\\u00");
        }
        let c = s.get_char(i);
        if c == '"' {
            out.append("\\\"");
            proof {
                assert("\\\""@ =~= json_escaped_char(c));
            }
        } else if c == '\\' {
            out.append("\\\\");
            proof {
                assert("\\\\"@ =~= json_escaped_char(c));
            }
        } else if c == '\n' {
            out.append("\\n");
            proof {
                assert("\\n"@ =~= json_escaped_char(c));
            }
        } else if c == '\r' {
            out.append("\\r");
            proof {
                assert("\\r"@ =~= json_escaped_char(c));
            }
        } else if c == '\t' {
            out.append("\\t");
            proof {
                assert("\\t"@ =~= json_escaped_char(c));
            }
        } else if (c as u32) < 32 {
            out.append("\\u00");
            out.append(hex_digit_to_str((c as u32) / 16));
            out.append(hex_digit_to_str((c as u32) % 16));
            proof {
                assert("\\u00"@ + seq![hex_digit_char(c as u32 as int / 16)] + seq![
                    hex_digit_char(c as u32 as int % 16),
                ] =~= json_escaped_char(c));
            }
        } else {
            let piece = s.substring_char(i, i + 1);
            proof {
                assert(piece@ =~= seq![s@[i as int]]);
                assert(piece@ =~= json_escaped_char(c));
            }
            out.append(piece);
        }
        proof {
            lemma_json_escaped_snoc(s@.take(i as int), c);
            assert(s@.take(i + 1) =~= s@.take(i as int).push(c));
        }
        i += 1;
    }
    proof {
        assert(s@.take(n as int) =~= s@);
    }
}

/// One framed call: `{"id":N,"method":"M","params":P}` and a newline.
pub open spec fn encode_call_spec(id: u64, method: Seq<char>, params: Seq<char>) -> Seq<char> {
    seq!['{', '"', 'i', 'd', '"', ':'] + dec_str(id as int) + seq![
        ',', '"', 'm', 'e', 't', 'h', 'o', 'd', '"', ':', '"',
    ] + json_escaped(method) + seq!['"', ',', '"', 'p', 'a', 'r', 'a', 'm', 's', '"', ':']
        + params + seq!['}', '\n']
}

/// One framed notification: `{"method":"M","params":P}` and a newline.
pub open spec fn encode_notification_spec(method: Seq<char>, params: Seq<char>) -> Seq<char> {
    seq!['{', '"', 'm', 'e', 't', 'h', 'o', 'd', '"', ':', '"'] + json_escaped(method) + seq![
        '"', ',', '"', 'p', 'a', 'r', 'a', 'm', 's', '"', ':',
    ] + params + seq!['}', '\n']
}

/// One framed response to a server request: `{"id":N,"result":R}` and a
/// newline.
pub open spec fn encode_response_spec(id: u64, result: Seq<char>) -> Seq<char> {
    seq!['{', '"', 'i', 'd', '"', ':'] + dec_str(id as int) + seq![
        ',', '"', 'r', 'e', 's', 'u', 'l', 't', '"', ':',
    ] + result + seq!['}', '\n']
}

/// Frame an outbound call. `params` must already be JSON text.
pub fn encode_call_line(id: u64, method: &str, params: &str) -> (r: String)
    ensures
        r@ == encode_call_spec(id, method@, params@),
{
    proof {
        reveal_strlit("{\"id\":");
        reveal_strlit(",\"method\":\"");
        reveal_strlit("\",\"params\":");
        reveal_strlit("}\n");
        assert("{\"id\":"@ =~= seq!['{', '"', 'i', 'd', '"', ':']);
        assert(",\"method\":\""@ =~= seq![',', '"', 'm', 'e', 't', 'h', 'o', 'd', '"', ':', '"']);
        assert("\",\"params\":"@ =~= seq!['"', ',', '"', 'p', 'a', 'r', 'a', 'm', 's', '"', ':']);
        assert("}\n"@ =~= seq!['}', '\n']);
    }
    let mut out = String::from_str("{\"id\":");
    let idtext = u64_to_dec(id);
    out.append(idtext.as_str());
    out.append(",\"method\":\"");
    append_json_escaped(&mut out, method);
    out.append("\",\"params\":");
    out.append(params);
    out.append("}\n");
    proof {
        assert(out@ =~= encode_call_spec(id, method@, params@));
    }
    out
}

/// Frame an outbound notification. `params` must already be JSON text.
pub fn encode_notification_line(method: &str, params: &str) -> (r: String)
    ensures
        r@ == encode_notification_spec(method@, params@),
{
    proof {
        reveal_strlit("{\"method\":\"");
        reveal_strlit("\",\"params\":");
        reveal_strlit("}\n");
        assert("{\"method\":\""@ =~= seq!['{', '"', 'm', 'e', 't', 'h', 'o', 'd', '"', ':', '"']);
        assert("\",\"params\":"@ =~= seq!['"', ',', '"', 'p', 'a', 'r', 'a', 'm', 's', '"', ':']);
        assert("}\n"@ =~= seq!['}', '\n']);
    }
    let mut out = String::from_str("{\"method\":\"");
    append_json_escaped(&mut out, method);
    out.append("\",\"params\":");
    out.append(params);
    out.append("}\n");
    proof {
        assert(out@ =~= encode_notification_spec(method@, params@));
    }
    out
}

/// Frame an outbound response answering a server request. `result` must
/// already be JSON text.
pub fn encode_response_line(id: u64, result: &str) -> (r: String)
    ensures
        r@ == encode_response_spec(id, result@),
{
    proof {
        reveal_strlit("{\"id\":");
        reveal_strlit(",\"result\":");
        reveal_strlit("}\n");
        assert("{\"id\":"@ =~= seq!['{', '"', 'i', 'd', '"', ':']);
        assert(",\"result\":"@ =~= seq![',', '"', 'r', 'e', 's', 'u', 'l', 't', '"', ':']);
        assert("}\n"@ =~= seq!['}', '\n']);
    }
    let mut out = String::from_str("{\"id\":");
    let idtext = u64_to_dec(id);
    out.append(idtext.as_str());
    out.append(",\"result\":");
    out.append(result);
    out.append("}\n");
    proof {
        assert(out@ =~= encode_response_spec(id, result@));
    }
    out
}

// ---------------------------------------------------------------------
// Method and event name mapping.
// ---------------------------------------------------------------------

/// The wire method name for a front-end method name.
pub open spec fn map_method_spec(m: Seq<char>) -> Seq<char> {
    if m == "startThread"@ { "thread/start"@ }
    else if m == "resumeThread"@ { "thread/resume"@ }
    else if m == "listThreads"@ { "thread/list"@ }
    else if m == "startTurn"@ { "turn/start"@ }
    else if m == "interruptTurn"@ { "turn/interrupt"@ }
    else if m == "getAccount"@ { "account/read"@ }
    else if m == "login"@ { "account/login/start"@ }
    else if m == "logout"@ { "account/logout"@ }
    else { m }
}

/// The front-end event name for a wire method name: every path separator
/// becomes a hyphen.
pub open spec fn map_event_spec(m: Seq<char>) -> Seq<char> {
    Seq::new(m.len(), |i: int| if m[i] == '/' { '-' } else { m[i] })
}

/// Maps front-end method names to wire methods and wire method names to
/// front-end event names.
pub struct IpcBridge;

impl IpcBridge {
    /// Map a front-end method name to the wire JSON-RPC method.
    pub fn map_method(method: &str) -> (r: &str)
        ensures
            r@ == map_method_spec(method@),
    {
        if crate::strutil::str_eq(method, "startThread") { "thread/start" }
        else if crate::strutil::str_eq(method, "resumeThread") { "thread/resume" }
        else if crate::strutil::str_eq(method, "listThreads") { "thread/list" }
        else if crate::strutil::str_eq(method, "startTurn") { "turn/start" }
        else if crate::strutil::str_eq(method, "interruptTurn") { "turn/interrupt" }
        else if crate::strutil::str_eq(method, "getAccount") { "account/read" }
        else if crate::strutil::str_eq(method, "login") { "account/login/start" }
        else if crate::strutil::str_eq(method, "logout") { "account/logout" }
        else { method }
    }

    /// Map a wire method name to the front-end event name, replacing path
    /// separators with hyphens.
    pub fn map_event(event: &str) -> (r: String)
        ensures
            r@ == map_event_spec(event@),
    {
        proof {
            reveal_strlit("-");
        }
        let n = event.unicode_len();
        let mut out = String::new();
        let mut i: usize = 0;
        proof {
            assert(out@ =~= map_event_spec(event@).take(0));
        }
        while i < n
            invariant
                n == event@.len(),
                0 <= i <= n,
                out@ == map_event_spec(event@).take(i as int),
            decreases n - i,
        {
            proof {
                reveal_strlit("-");
            }
            let c = event.get_char(i);
            if c == '/' {
                out.append("-");
            } else {
                let piece = event.substring_char(i, i + 1);
                proof {
                    assert(piece@ =~= seq![event@[i as int]]);
                }
                out.append(piece);
            }
            proof {
                assert(out@ =~= map_event_spec(event@).take(i + 1));
            }
            i += 1;
        }
        proof {
            assert(map_event_spec(event@).take(n as int) =~= map_event_spec(event@));
        }
        out
    }
}

} // verus!
