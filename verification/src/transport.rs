//! Transport-layer error model (code range 893100–893199) and the gateway's
//! inner `ApiResponse` check.

use vstd::prelude::*;
use vstd::string::StringExecFns;

use crate::auth_error::AuthError;
use crate::cli_error::Error;
use crate::text::{tagged, tagged_text};

verus! {

broadcast use vstd::string::to_string_from_display_ensures_for_str;

/// Network failure (connect / send / body read).
pub const E_NETWORK: i64 = 893101;
/// Non-success HTTP status.
pub const E_HTTP: i64 = 893102;
/// Response protocol mismatch (missing field, malformed JSON).
pub const E_PARSE: i64 = 893103;
/// Backend business error that carried no error code.
pub const E_API: i64 = 893104;
/// Shared catch-all code.
pub const E_OTHER: i64 = 893999;

/// What an `Other` error wraps: plain text, or an error of an upper layer
/// boxed on its way down (so that it can be recovered by its type).
#[derive(Debug)]
pub enum ErrorCause {
    Message(String),
    Auth(Box<AuthError>),
    Cli(Box<Error>),
}

/// Transport-layer error.
#[derive(Debug)]
pub enum TransportError {
    /// Network failure.
    Network { message: String, endpoint: String },
    /// HTTP status failure.
    Http { message: String, endpoint: String, status: u16 },
    /// Protocol mismatch; `body` is the offending response as JSON text.
    Parse { message: String, endpoint: String, body: String },
    /// Backend business error (`errcode != 0`); `body` is the response as JSON text.
    Api { message: String, action: String, code: Option<i64>, body: String },
    /// Catch-all.
    Other(ErrorCause),
}

impl ErrorCause {
    /// The text of the wrapped error (the display text of a boxed error).
    pub open spec fn spec_text(self) -> Seq<char>
        decreases self,
    {
        match self {
            ErrorCause::Message(s) => s@,
            ErrorCause::Auth(e) => (*e).spec_display(),
            ErrorCause::Cli(e) => (*e).spec_display(),
        }
    }

    pub fn text(&self) -> (r: String)
        ensures
            r@ == self.spec_text(),
        decreases self,
    {
        match self {
            ErrorCause::Message(s) => s.clone(),
            ErrorCause::Auth(e) => e.display_text(),
            ErrorCause::Cli(e) => e.display_text(),
        }
    }
}

impl TransportError {
    pub open spec fn spec_code(self) -> int {
        match self {
            TransportError::Network { .. } => E_NETWORK as int,
            TransportError::Http { .. } => E_HTTP as int,
            TransportError::Parse { .. } => E_PARSE as int,
            TransportError::Api { code, .. } => match code {
                Some(c) => c as int,
                None => E_API as int,
            },
            TransportError::Other(_) => E_OTHER as int,
        }
    }

    pub open spec fn spec_message(self) -> Seq<char>
        decreases self,
    {
        match self {
            TransportError::Network { message, .. } => message@,
            TransportError::Http { message, .. } => message@,
            TransportError::Parse { message, .. } => message@,
            TransportError::Api { message, .. } => message@,
            TransportError::Other(c) => c.spec_text(),
        }
    }

    pub open spec fn spec_kind_name(self) -> Seq<char> {
        match self {
            TransportError::Network { .. } => "NetworkError"@,
            TransportError::Http { .. } => "HttpError"@,
            TransportError::Parse { .. } => "ParseError"@,
            TransportError::Api { .. } => "ApiError"@,
            TransportError::Other(_) => "UnknownError"@,
        }
    }

    pub open spec fn spec_display(self) -> Seq<char>
        decreases self,
    {
        match self {
            TransportError::Other(c) => tagged(self.spec_kind_name(), c.spec_text(), self.spec_code()),
            TransportError::Network { message, .. } => tagged(self.spec_kind_name(), message@, self.spec_code()),
            TransportError::Http { message, .. } => tagged(self.spec_kind_name(), message@, self.spec_code()),
            TransportError::Parse { message, .. } => tagged(self.spec_kind_name(), message@, self.spec_code()),
            TransportError::Api { message, .. } => tagged(self.spec_kind_name(), message@, self.spec_code()),
        }
    }

    /// Category code: an `Api` error carries the backend's own code.
    pub fn code(&self) -> (r: i64)
        ensures
            r == self.spec_code(),
    {
        match self {
            TransportError::Network { .. } => E_NETWORK,
            TransportError::Http { .. } => E_HTTP,
            TransportError::Parse { .. } => E_PARSE,
            TransportError::Api { code, .. } => match code {
                Some(c) => *c,
                None => E_API,
            },
            TransportError::Other(_) => E_OTHER,
        }
    }

    pub fn message(&self) -> (r: String)
        ensures
            r@ == self.spec_message(),
        decreases self,
    {
        match self {
            TransportError::Network { message, .. } => message.clone(),
            TransportError::Http { message, .. } => message.clone(),
            TransportError::Parse { message, .. } => message.clone(),
            TransportError::Api { message, .. } => message.clone(),
            TransportError::Other(c) => c.text(),
        }
    }

    fn kind_name(&self) -> (r: &'static str)
        ensures
            r@ == self.spec_kind_name(),
    {
        match self {
            TransportError::Network { .. } => "NetworkError",
            TransportError::Http { .. } => "HttpError",
            TransportError::Parse { .. } => "ParseError",
            TransportError::Api { .. } => "ApiError",
            TransportError::Other(_) => "UnknownError",
        }
    }

    /// Display text: `Type: message [code=N]`.
    pub fn display_text(&self) -> (r: String)
        ensures
            r@ == self.spec_display(),
        decreases self,
    {
        let m = match self {
            TransportError::Other(c) => c.text(),
            TransportError::Network { message, .. } => message.clone(),
            TransportError::Http { message, .. } => message.clone(),
            TransportError::Parse { message, .. } => message.clone(),
            TransportError::Api { message, .. } => message.clone(),
        };
        tagged_text(self.kind_name(), m.as_str(), self.code())
    }
}

} // verus!
