//! The errors this library reports.

use vstd::prelude::*;

use crate::text::concat;

verus! {

#[verifier::external_type_specification]
#[verifier::external_body]
pub struct ExUrlParseError(url::ParseError);

/// Every failure of a command, in one type.
#[derive(Debug)]
pub enum Error {
    /// Command-line arguments are missing or contradict each other.
    Args(String),
    /// The credentials name no usable authentication method.
    Auth(String),
    /// A command or sub-command word is not known.
    Command(String),
    /// Something looked up is absent, with an optional hint.
    NotFound(String, Option<String>),
    /// A value does not have the expected shape.
    Parse(String),
    /// The access token cannot be read as needed.
    Token(String),
    /// A URL does not parse.
    Url(url::ParseError),
    /// A UUID does not parse; the parser's own description.
    Uuid(String),
}

/// Relies on the `Display` impl of `url::ParseError`, which describes the
/// failure in words; nothing is assumed of the text.
#[verifier::external_body]
fn url_error_text(e: &url::ParseError) -> String {
    e.to_string()
}

impl Error {
    /// The message of this error, where it is made of the error's own text:
    /// a fixed heading, then the text. A URL error's text comes from the URL
    /// parser and is not stated.
    pub open spec fn message_is(&self, r: Seq<char>) -> bool {
        match self {
            Error::Args(m) => r == "Command args: "@ + m@,
            Error::Auth(m) => r == "Authorization: "@ + m@,
            Error::Command(m) => r == "Command input: "@ + m@,
            Error::NotFound(name, help) => match help {
                Some(h) => r == name@ + " not found. "@ + h@,
                None => r == name@ + " not found."@,
            },
            Error::Parse(m) => r == "Parse error: "@ + m@,
            Error::Token(m) => r == "Parsing access token: "@ + m@,
            Error::Url(_) => "Parsing URL: "@.is_prefix_of(r),
            Error::Uuid(m) => r == "Parsing UUID: "@ + m@,
        }
    }

    /// The human-readable message of this error.
    pub fn message(&self) -> (r: String)
        ensures
            self.message_is(r@),
    {
        match self {
            Error::Args(m) => concat("Command args: ", m.as_str()),
            Error::Auth(m) => concat("Authorization: ", m.as_str()),
            Error::Command(m) => concat("Command input: ", m.as_str()),
            Error::NotFound(name, help) => match help {
                Some(h) => {
                    let mut r = concat(name.as_str(), " not found. ");
                    r.append(h.as_str());
                    r
                },
                None => concat(name.as_str(), " not found."),
            },
            Error::Parse(m) => concat("Parse error: ", m.as_str()),
            Error::Token(m) => concat("Parsing access token: ", m.as_str()),
            Error::Url(e) => {
                let t = url_error_text(e);
                let r = concat("Parsing URL: ", t.as_str());
                assert("Parsing URL: "@.is_prefix_of(r@)) by {
                    assert(r@.subrange(0, "Parsing URL: "@.len() as int) =~= "Parsing URL: "@);
                };
                r
            },
            Error::Uuid(m) => concat("Parsing UUID: ", m.as_str()),
        }
    }

    /// This is an `Args` error with the message `m`.
    pub open spec fn is_args(&self, m: Seq<char>) -> bool {
        self matches Error::Args(s) && s@ == m
    }

    /// This is an `Auth` error with the message `m`.
    pub open spec fn is_auth(&self, m: Seq<char>) -> bool {
        self matches Error::Auth(s) && s@ == m
    }

    /// This is a `Command` error with the message `m`.
    pub open spec fn is_command(&self, m: Seq<char>) -> bool {
        self matches Error::Command(s) && s@ == m
    }

    /// This is a `Parse` error with the message `m`.
    pub open spec fn is_parse(&self, m: Seq<char>) -> bool {
        self matches Error::Parse(s) && s@ == m
    }

    /// This is a `Token` error with the message `m`.
    pub open spec fn is_token(&self, m: Seq<char>) -> bool {
        self matches Error::Token(s) && s@ == m
    }
}

} // verus!
