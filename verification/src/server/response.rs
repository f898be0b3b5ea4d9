//! Rejections: a status code paired with a JSON body.

use vstd::prelude::*;
use crate::server::grpc::hex_digit;

verus! {

/// Whether a character is written with a backslash inside a JSON string:
/// the double quote, the backslash and the control characters below the
/// space.
pub open spec fn needs_escape(c: char) -> bool {
    c == '"' || c == '\\' || (c as u32) < 0x20
}

/// How a character is written inside a JSON string: the double quote and the
/// backslash behind a backslash; backspace, tab, line feed, form feed and
/// carriage return by their letter; any other control character below the
/// space as `\u00` and its two hexadecimal digits in lower case; every
/// other character as itself.
pub open spec fn escape(c: char) -> Seq<char> {
    if c == '"' {
        seq!['\\', '"']
    } else if c == '\\' {
        seq!['\\', '\\']
    } else if c == '\u{8}' {
        seq!['\\', 'b']
    } else if c == '\t' {
        seq!['\\', 't']
    } else if c == '\n' {
        seq!['\\', 'n']
    } else if c == '\u{c}' {
        seq!['\\', 'f']
    } else if c == '\r' {
        seq!['\\', 'r']
    } else if (c as u32) < 0x20 {
        seq![
            '\\',
            'u',
            '0',
            '0',
            hex_digit(((c as u32) / 16) as u128),
            hex_digit(((c as u32) % 16) as u128),
        ]
    } else {
        seq![c]
    }
}

/// A text with each of its characters written as a JSON string holds it.
pub open spec fn escaped(text: Seq<char>) -> Seq<char>
    decreases text.len(),
{
    if text.len() == 0 {
        Seq::empty()
    } else {
        escaped(text.drop_last()) + escape(text.last())
    }
}

/// The JSON string literal for a text: the text between double quotes, each
/// character written as JSON asks.
pub open spec fn json_string(text: Seq<char>) -> Seq<char> {
    seq!['"'] + escaped(text) + seq!['"']
}

/// A text without quotes, backslashes and control characters stands in its
/// JSON string literal as it is.
pub proof fn lemma_plain_text_is_quoted(text: Seq<char>)
    requires
        forall|i: int| 0 <= i < text.len() ==> !needs_escape(#[trigger] text[i]),
    ensures
        escaped(text) == text,
        json_string(text) == seq!['"'] + text + seq!['"'],
    decreases text.len(),
{
    if text.len() > 0 {
        lemma_plain_text_is_quoted(text.drop_last());
        assert(!needs_escape(text[text.len() - 1]));
        assert(text.drop_last() + seq![text.last()] =~= text);
    }
}

/// Makes a `serde_json::Value::String` of the text and calls its
/// `to_string`, which writes the compact JSON form: the text between double
/// quotes, with the characters that JSON asks to escape written as
/// [`escape`] says.
#[verifier::external_body]
pub(crate) fn quote_json(text: &str) -> (literal: String)
    ensures
        literal@ == json_string(text@),
{
    serde_json::Value::from(text).to_string()
}

/// The status codes that a rejection carries.
#[derive(Debug, Clone, Copy, PartialEq, Eq, Structural)]
pub enum Status {
    /// 403: the caller is known and may not pass.
    Forbidden,
    /// 404: credentials or role are missing or unknown.
    NotFound,
    /// 500: something the core relies on is not there.
    Unavailable,
}

impl Status {
    pub open spec fn spec_code(self) -> u16 {
        match self {
            Status::Forbidden => 403,
            Status::NotFound => 404,
            Status::Unavailable => 500,
        }
    }

    /// The code as a number.
    #[verifier::when_used_as_spec(spec_code)]
    pub fn code(self) -> (code: u16)
        ensures
            code == self.spec_code(),
    {
        match self {
            Status::Forbidden => 403,
            Status::NotFound => 404,
            Status::Unavailable => 500,
        }
    }

    /// The code in decimal digits.
    pub open spec fn digits(self) -> Seq<char> {
        match self {
            Status::Forbidden => "403"@,
            Status::NotFound => "404"@,
            Status::Unavailable => "500"@,
        }
    }
}

/// What a refused caller is sent: a status and a JSON body.
#[derive(Debug, Clone, PartialEq, Eq)]
pub struct Rejection {
    pub status: Status,
    pub body: String,
}

/// The body `{"code":<status>,"body":<detail>}`.
pub open spec fn code_body(status: Status, detail: Seq<char>) -> Seq<char> {
    "{\"code\":"@ + status.digits() + ",\"body\":"@ + json_string(detail) + "}"@
}

/// The body `{"error":<message>}`.
pub open spec fn error_body(message: Seq<char>) -> Seq<char> {
    "{\"error\":"@ + json_string(message) + "}"@
}

impl Rejection {
    /// A rejection whose body repeats the status code beside a detail.
    pub fn with_code(status: Status, detail: &str) -> (rejection: Rejection)
        ensures
            rejection.status == status,
            rejection.body@ == code_body(status, detail@),
    {
        let mut body = "{\"code\":".to_owned();
        match status {
            Status::Forbidden => body.append("403"),
            Status::NotFound => body.append("404"),
            Status::Unavailable => body.append("500"),
        }
        body.append(",\"body\":");
        body.append(quote_json(detail).as_str());
        body.append("}");
        Rejection { status, body }
    }

    /// A rejection whose body holds an error message alone.
    pub fn with_error(status: Status, message: &str) -> (rejection: Rejection)
        ensures
            rejection.status == status,
            rejection.body@ == error_body(message@),
    {
        let mut body = "{\"error\":".to_owned();
        body.append(quote_json(message).as_str());
        body.append("}");
        Rejection { status, body }
    }
}

} // verus!
