//! Replies: severity-tagged response values and their rendering.

use vstd::prelude::*;
use vstd::string::StringExecFns;

verus! {

/// The severity classes a reply can carry beyond a plain informational
/// message: warning (user error), success (state changed as requested),
/// and error (reserved for conditions beyond user misuse; unused by the
/// current handlers).
#[derive(Clone, Copy, PartialEq, Eq, Structural, Debug)]
pub enum MessageType {
    Warning,
    Success,
    Error,
}

/// A reply to one inbound command: an optional severity tag plus the
/// message text. Pure output value; `None` severity means a plain
/// informational message.
pub struct Reply {
    pub severity: Option<MessageType>,
    pub text: String,
}

/// The fixed prefix a severity is rendered as.
pub open spec fn prefix_seq(severity: Option<MessageType>) -> Seq<char> {
    match severity {
        Option::None => ""@,
        Option::Some(MessageType::Warning) => "[warning] "@,
        Option::Some(MessageType::Success) => "[success] "@,
        Option::Some(MessageType::Error) => "[error] "@,
    }
}

/// The digit character for a value below ten.
pub open spec fn dec_digit(d: int) -> char {
    if d == 0 { '0' }
    else if d == 1 { '1' }
    else if d == 2 { '2' }
    else if d == 3 { '3' }
    else if d == 4 { '4' }
    else if d == 5 { '5' }
    else if d == 6 { '6' }
    else if d == 7 { '7' }
    else if d == 8 { '8' }
    else { '9' }
}

/// The base-10 digit string of a natural number, most significant digit
/// first.
pub open spec fn dec_seq(n: nat) -> Seq<char>
    decreases n,
{
    if n < 10 {
        seq![dec_digit(n as int)]
    } else {
        dec_seq(n / 10).push(dec_digit((n % 10) as int))
    }
}

/// Relies on `u64`'s standard `ToString`/`Display` implementation, which
/// formats the value as its base-10 digit string.
#[verifier::external_body]
pub fn u64_to_string(n: u64) -> (r: String)
    ensures
        r@ == dec_seq(n as nat),
{
    n.to_string()
}

/// The fixed prefix string for a severity tag.
pub fn severity_prefix(severity: &Option<MessageType>) -> (r: &'static str)
    ensures
        r@ == prefix_seq(*severity),
{
    match severity {
        Option::None => "",
        Option::Some(MessageType::Warning) => "[warning] ",
        Option::Some(MessageType::Success) => "[success] ",
        Option::Some(MessageType::Error) => "[error] ",
    }
}

/// Render a reply as the single line shown to the user: the severity
/// prefix followed by the message text.
pub fn render_reply(reply: &Reply) -> (r: String)
    ensures
        r@ == prefix_seq(reply.severity) + reply.text@,
{
    let mut s: String = severity_prefix(&reply.severity).to_owned();
    s.append(reply.text.as_str());
    s
}

} // verus!
