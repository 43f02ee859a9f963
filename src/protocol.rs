//! The wire vocabulary exchanged with the browser extension, and its JSON framing.
//!
//! A frame is `{"action":<tag>,"payload":<fields>}` with a kebab-case tag; variants
//! without fields carry no payload.
use vstd::prelude::*;
use vstd::string::*;

verus! {

/// One message of the wire protocol.
#[derive(Debug, Clone, PartialEq, Eq)]
pub enum ServerMessage {
    SendDetails,
    Details { title: String, question_id: i32 },
    AppReady,
    AlreadyConnected,
    UpdateCode { code: String, play: bool },
    SendCode,
    Code { code: String },
    SetReadOnly { state: bool },
    Error { message: String },
}

/// The JSON string literal (quotes and escapes included) that serde_json writes for `s`.
pub uninterp spec fn json_quoted(s: Seq<char>) -> Seq<char>;

/// Relies on the `Display` impl of serde_json::Value (compact serializer, reached
/// through `to_string`): a `Value::String` is written as one JSON string literal,
/// a function of the characters of `s` alone.
#[verifier::external_body]
fn json_string_literal(s: &str) -> (r: String)
    ensures
        r@ == json_quoted(s@),
{
    serde_json::Value::String(s.to_string()).to_string()
}

pub open spec fn digit_char(d: nat) -> char {
    if d == 0 { '0' } else if d == 1 { '1' } else if d == 2 { '2' } else if d == 3 { '3' }
    else if d == 4 { '4' } else if d == 5 { '5' } else if d == 6 { '6' } else if d == 7 { '7' }
    else if d == 8 { '8' } else { '9' }
}

/// Decimal digits of a natural number, most significant first, no leading zeros.
pub open spec fn nat_text(n: nat) -> Seq<char>
    decreases n,
{
    if n < 10 {
        seq![digit_char(n)]
    } else {
        nat_text(n / 10) + seq![digit_char(n % 10)]
    }
}

/// JSON text of an integer.
pub open spec fn int_text(n: int) -> Seq<char> {
    if n < 0 { seq!['-'] + nat_text((-n) as nat) } else { nat_text(n as nat) }
}

/// JSON text of a boolean.
pub open spec fn bool_text(b: bool) -> Seq<char> {
    if b { "true"@ } else { "false"@ }
}

/// The text of the frame that carries `m`.
pub open spec fn frame_text(m: ServerMessage) -> Seq<char> {
    match m {
        ServerMessage::SendDetails => "{\"action\":\"send-details\"}"@,
        ServerMessage::Details { title, question_id } =>
            "{\"action\":\"details\",\"payload\":{\"title\":"@ + json_quoted(title@)
                + ",\"questionId\":"@ + int_text(question_id as int) + "}}"@,
        ServerMessage::AppReady => "{\"action\":\"app-ready\"}"@,
        ServerMessage::AlreadyConnected => "{\"action\":\"already-connected\"}"@,
        ServerMessage::UpdateCode { code, play } =>
            "{\"action\":\"update-code\",\"payload\":{\"code\":"@ + json_quoted(code@)
                + ",\"play\":"@ + bool_text(play) + "}}"@,
        ServerMessage::SendCode => "{\"action\":\"send-code\"}"@,
        ServerMessage::Code { code } =>
            "{\"action\":\"code\",\"payload\":{\"code\":"@ + json_quoted(code@) + "}}"@,
        ServerMessage::SetReadOnly { state } =>
            "{\"action\":\"set-read-only\",\"payload\":{\"state\":"@ + bool_text(state) + "}}"@,
        ServerMessage::Error { message } =>
            "{\"action\":\"error\",\"payload\":{\"message\":"@ + json_quoted(message@) + "}}"@,
    }
}

fn digit_str(d: u64) -> (r: &'static str)
    requires
        d < 10,
    ensures
        r@ == seq![digit_char(d as nat)],
{
    proof {
        reveal_strlit("0");
        reveal_strlit("1");
        reveal_strlit("2");
        reveal_strlit("3");
        reveal_strlit("4");
        reveal_strlit("5");
        reveal_strlit("6");
        reveal_strlit("7");
        reveal_strlit("8");
        reveal_strlit("9");
    }
    if d == 0 { "0" } else if d == 1 { "1" } else if d == 2 { "2" } else if d == 3 { "3" }
    else if d == 4 { "4" } else if d == 5 { "5" } else if d == 6 { "6" } else if d == 7 { "7" }
    else if d == 8 { "8" } else { "9" }
}

fn write_nat(n: u64) -> (r: String)
    ensures
        r@ == nat_text(n as nat),
    decreases n,
{
    if n < 10 {
        String::from_str(digit_str(n))
    } else {
        let mut s = write_nat(n / 10);
        s.append(digit_str(n % 10));
        s
    }
}

/// Writes an integer as JSON text.
pub fn write_int(n: i32) -> (r: String)
    ensures
        r@ == int_text(n as int),
{
    let v: i64 = n as i64;
    if v < 0 {
        let mut s = String::from_str("-");
        proof { reveal_strlit("-"); }
        let digits = write_nat((-v) as u64);
        s.append(digits.as_str());
        s
    } else {
        write_nat(v as u64)
    }
}

fn bool_str(b: bool) -> (r: &'static str)
    ensures
        r@ == bool_text(b),
{
    if b { "true" } else { "false" }
}

impl ServerMessage {
    /// The text frame that carries this message on the wire.
    pub fn to_frame(&self) -> (r: String)
        ensures
            r@ == frame_text(*self),
    {
        match self {
            ServerMessage::SendDetails => String::from_str("{\"action\":\"send-details\"}"),
            ServerMessage::Details { title, question_id } => {
                let mut s = String::from_str("{\"action\":\"details\",\"payload\":{\"title\":");
                let t = json_string_literal(title.as_str());
                s.append(t.as_str());
                s.append(",\"questionId\":");
                let q = write_int(*question_id);
                s.append(q.as_str());
                s.append("}}");
                s
            },
            ServerMessage::AppReady => String::from_str("{\"action\":\"app-ready\"}"),
            ServerMessage::AlreadyConnected => String::from_str("{\"action\":\"already-connected\"}"),
            ServerMessage::UpdateCode { code, play } => {
                let mut s = String::from_str("{\"action\":\"update-code\",\"payload\":{\"code\":");
                let c = json_string_literal(code.as_str());
                s.append(c.as_str());
                s.append(",\"play\":");
                s.append(bool_str(*play));
                s.append("}}");
                s
            },
            ServerMessage::SendCode => String::from_str("{\"action\":\"send-code\"}"),
            ServerMessage::Code { code } => {
                let mut s = String::from_str("{\"action\":\"code\",\"payload\":{\"code\":");
                let c = json_string_literal(code.as_str());
                s.append(c.as_str());
                s.append("}}");
                s
            },
            ServerMessage::SetReadOnly { state } => {
                let mut s = String::from_str("{\"action\":\"set-read-only\",\"payload\":{\"state\":");
                s.append(bool_str(*state));
                s.append("}}");
                s
            },
            ServerMessage::Error { message } => {
                let mut s = String::from_str("{\"action\":\"error\",\"payload\":{\"message\":");
                let m = json_string_literal(message.as_str());
                s.append(m.as_str());
                s.append("}}");
                s
            },
        }
    }
}

} // verus!
