//! Errors of the service-call layer (code range 893000–893099).

use vstd::prelude::*;
use vstd::string::StringExecFns;

use crate::text::{tagged, tagged_text};
use crate::transport::{ErrorCause, TransportError};

verus! {

broadcast use vstd::string::to_string_from_display_ensures_for_str;

/// Invalid input.
pub const E_VALIDATION: i64 = 893001;
/// Invalid configuration.
pub const E_CONFIG: i64 = 893002;
/// Local I/O failure.
pub const E_IO: i64 = 893003;
/// Access outside the permitted file-system roots.
pub const E_PERMISSION: i64 = 893004;
/// Output already rendered for the command line (help / usage).
pub const E_CLI_OUTPUT: i64 = 893005;
/// Shared catch-all code.
pub const E_OTHER: i64 = 893999;

/// Service-call layer error.
#[derive(Debug)]
pub enum WecomError {
    /// A transport error passed through.
    Transport(TransportError),
    /// Invalid input.
    Validation(String),
    /// Invalid configuration.
    Config(String),
    /// Access outside the permitted roots.
    Permission(String),
    /// Local I/O failure.
    Io { message: String },
    /// Output already rendered for the command line, with its exit code.
    CliOutput { code: i32, message: String },
    /// Catch-all.
    Other(ErrorCause),
}

impl WecomError {
    pub open spec fn spec_code(self) -> int {
        match self {
            WecomError::Transport(inner) => inner.spec_code(),
            WecomError::Validation(_) => E_VALIDATION as int,
            WecomError::Config(_) => E_CONFIG as int,
            WecomError::Permission(_) => E_PERMISSION as int,
            WecomError::Io { .. } => E_IO as int,
            WecomError::CliOutput { .. } => E_CLI_OUTPUT as int,
            WecomError::Other(_) => E_OTHER as int,
        }
    }

    pub open spec fn spec_message(self) -> Seq<char> {
        match self {
            WecomError::Transport(inner) => inner.spec_message(),
            WecomError::Validation(m) => m@,
            WecomError::Config(m) => m@,
            WecomError::Permission(m) => m@,
            WecomError::Io { message } => message@,
            WecomError::CliOutput { message, .. } => message@,
            WecomError::Other(c) => c.spec_text(),
        }
    }

    pub open spec fn spec_display(self) -> Seq<char>
        decreases self,
    {
        match self {
            WecomError::Transport(inner) => inner.spec_display(),
            WecomError::Validation(m) => tagged("ValidationError"@, m@, self.spec_code()),
            WecomError::Config(m) => tagged("ConfigError"@, m@, self.spec_code()),
            WecomError::Permission(m) => tagged("PermissionError"@, m@, self.spec_code()),
            WecomError::Io { message } => tagged("IoError"@, message@, self.spec_code()),
            WecomError::CliOutput { message, .. } => tagged("CliOutput"@, message@, self.spec_code()),
            WecomError::Other(c) => tagged("UnknownError"@, c.spec_text(), self.spec_code()),
        }
    }

    pub open spec fn spec_exit_code(self) -> int {
        match self {
            WecomError::CliOutput { code, .. } => code as int,
            _ => 1,
        }
    }

    pub fn code(&self) -> (r: i64)
        ensures
            r == self.spec_code(),
    {
        match self {
            WecomError::Transport(inner) => inner.code(),
            WecomError::Validation(_) => E_VALIDATION,
            WecomError::Config(_) => E_CONFIG,
            WecomError::Permission(_) => E_PERMISSION,
            WecomError::Io { .. } => E_IO,
            WecomError::CliOutput { .. } => E_CLI_OUTPUT,
            WecomError::Other(_) => E_OTHER,
        }
    }

    pub fn message(&self) -> (r: String)
        ensures
            r@ == self.spec_message(),
    {
        match self {
            WecomError::Transport(inner) => inner.message(),
            WecomError::Validation(m) => m.clone(),
            WecomError::Config(m) => m.clone(),
            WecomError::Permission(m) => m.clone(),
            WecomError::Io { message } => message.clone(),
            WecomError::CliOutput { message, .. } => message.clone(),
            WecomError::Other(c) => c.text(),
        }
    }

    pub fn display_text(&self) -> (r: String)
        ensures
            r@ == self.spec_display(),
        decreases self,
    {
        match self {
            WecomError::Transport(inner) => inner.display_text(),
            WecomError::Validation(m) => tagged_text("ValidationError", m.as_str(), self.code()),
            WecomError::Config(m) => tagged_text("ConfigError", m.as_str(), self.code()),
            WecomError::Permission(m) => tagged_text("PermissionError", m.as_str(), self.code()),
            WecomError::Io { message } => tagged_text("IoError", message.as_str(), self.code()),
            WecomError::CliOutput { message, .. } => tagged_text("CliOutput", message.as_str(), self.code()),
            WecomError::Other(c) => {
                let t = c.text();
                tagged_text("UnknownError", t.as_str(), self.code())
            },
        }
    }

    /// Suggested process exit code: a rendered command-line output keeps its
    /// own code, everything else is a runtime error (1).
    pub fn exit_code(&self) -> (r: i32)
        ensures
            r == self.spec_exit_code(),
    {
        match self {
            WecomError::CliOutput { code, .. } => *code,
            _ => 1,
        }
    }
}

impl From<TransportError> for WecomError {
    fn from(e: TransportError) -> (r: WecomError) {
        WecomError::Transport(e)
    }
}

impl vstd::std_specs::convert::FromSpecImpl<TransportError> for WecomError {
    open spec fn obeys_from_spec() -> bool {
        true
    }

    open spec fn from_spec(e: TransportError) -> WecomError {
        WecomError::Transport(e)
    }
}

} // verus!
