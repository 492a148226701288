//! Errors of the command-line layer (code range 893200–893299).

use vstd::prelude::*;
use vstd::string::StringExecFns;

use crate::auth_error::{qr_timeout_message, qr_timeout_text, AuthError};
use crate::text::{tagged, tagged_text};
use crate::transport::{ErrorCause, TransportError};
use crate::wecom_error::WecomError;

verus! {

broadcast use vstd::string::to_string_from_display_ensures_for_str;

/// Authorization error code.
pub const E_AUTH: i64 = 893201;
/// QR-code scan timeout error code.
pub const E_QR_TIMEOUT: i64 = 893202;
/// Credential crypto error code.
pub const E_CRYPTO: i64 = 893203;
/// Shared catch-all code.
pub const E_OTHER: i64 = 893999;

/// Command-line layer error.
#[derive(Debug)]
pub enum Error {
    /// A service-call layer error (including the transport errors it carries).
    Wecom(WecomError),
    /// Authorization is needed but no credential / token is available.
    Auth(String),
    /// QR-code scan timed out.
    QrTimeout,
    /// Credential crypto failure.
    Crypto(String),
    /// Catch-all for unexpected failures.
    Other(String),
}

impl Error {
    pub open spec fn spec_code(self) -> int {
        match self {
            Error::Wecom(inner) => inner.spec_code(),
            Error::Auth(_) => E_AUTH as int,
            Error::QrTimeout => E_QR_TIMEOUT as int,
            Error::Crypto(_) => E_CRYPTO as int,
            Error::Other(_) => E_OTHER as int,
        }
    }

    pub open spec fn spec_message(self) -> Seq<char> {
        match self {
            Error::Wecom(inner) => inner.spec_message(),
            Error::Auth(m) => m@,
            Error::Crypto(m) => m@,
            Error::QrTimeout => qr_timeout_text(),
            Error::Other(m) => m@,
        }
    }

    pub open spec fn spec_display(self) -> Seq<char>
        decreases self,
    {
        match self {
            Error::Wecom(inner) => inner.spec_display(),
            Error::Auth(m) => tagged("AuthError"@, m@, self.spec_code()),
            Error::QrTimeout => tagged("QrTimeout"@, qr_timeout_text(), self.spec_code()),
            Error::Crypto(m) => tagged("CryptoError"@, m@, self.spec_code()),
            Error::Other(m) => tagged("UnknownError"@, m@, self.spec_code()),
        }
    }

    pub open spec fn spec_exit_code(self) -> int {
        match self {
            Error::Wecom(inner) => inner.spec_exit_code(),
            _ => 1,
        }
    }

    /// The JSON `type` name of a local variant (`None` for `Wecom`, which
    /// renders as the inner error does).
    pub open spec fn spec_json_type(self) -> Option<Seq<char>> {
        match self {
            Error::Wecom(_) => None,
            Error::Auth(_) => Some("AuthError"@),
            Error::QrTimeout => Some("QrTimeout"@),
            Error::Crypto(_) => Some("CryptoError"@),
            Error::Other(_) => Some("UnknownError"@),
        }
    }

    /// A backend protocol mismatch (missing field / wrong shape): a transport
    /// `Parse` error carried by the service-call layer.
    pub fn protocol(message: String, endpoint: String, body: String) -> (r: Error)
        ensures
            r == Error::Wecom(WecomError::Transport(TransportError::Parse { message, endpoint, body })),
    {
        Error::Wecom(WecomError::Transport(TransportError::Parse { message, endpoint, body }))
    }

    /// Category code: `Wecom` delegates to the inner error (down to the
    /// backend's own code); the local variants use their 8932xx codes.
    pub fn code(&self) -> (r: i64)
        ensures
            r == self.spec_code(),
    {
        match self {
            Error::Wecom(inner) => inner.code(),
            Error::Auth(_) => E_AUTH,
            Error::QrTimeout => E_QR_TIMEOUT,
            Error::Crypto(_) => E_CRYPTO,
            Error::Other(_) => E_OTHER,
        }
    }

    pub fn message(&self) -> (r: String)
        ensures
            r@ == self.spec_message(),
    {
        match self {
            Error::Wecom(inner) => inner.message(),
            Error::Auth(m) => m.clone(),
            Error::Crypto(m) => m.clone(),
            Error::QrTimeout => qr_timeout_message(),
            Error::Other(m) => m.clone(),
        }
    }

    /// Display text: `Type: message [code=N]`; `Wecom` shows the inner error's.
    pub fn display_text(&self) -> (r: String)
        ensures
            r@ == self.spec_display(),
        decreases self,
    {
        match self {
            Error::Wecom(inner) => inner.display_text(),
            Error::Auth(m) => tagged_text("AuthError", m.as_str(), self.code()),
            Error::QrTimeout => {
                let m = qr_timeout_message();
                tagged_text("QrTimeout", m.as_str(), self.code())
            },
            Error::Crypto(m) => tagged_text("CryptoError", m.as_str(), self.code()),
            Error::Other(m) => tagged_text("UnknownError", m.as_str(), self.code()),
        }
    }

    /// Suggested process exit code: `Wecom` delegates, local variants are 1.
    pub fn exit_code(&self) -> (r: i32)
        ensures
            r == self.spec_exit_code(),
    {
        match self {
            Error::Wecom(inner) => inner.exit_code(),
            _ => 1,
        }
    }

    /// The JSON `type` of a local variant.
    pub fn json_type(&self) -> (r: Option<&'static str>)
        ensures
            match r {
                Some(t) => self.spec_json_type() == Some(t@),
                None => self.spec_json_type() is None,
            },
    {
        match self {
            Error::Wecom(_) => None,
            Error::Auth(_) => Some("AuthError"),
            Error::QrTimeout => Some("QrTimeout"),
            Error::Crypto(_) => Some("CryptoError"),
            Error::Other(_) => Some("UnknownError"),
        }
    }

    /// The backend's answer carried by a business error (its JSON text), which
    /// is the error's JSON form; `None` for every other error.
    pub fn api_body(&self) -> (r: Option<&String>)
        ensures
            match self {
                Error::Wecom(WecomError::Transport(TransportError::Api { body, .. })) => r == Some(body),
                _ => r is None,
            },
    {
        match self {
            Error::Wecom(WecomError::Transport(TransportError::Api { body, .. })) => Some(body),
            _ => None,
        }
    }

    /// Whether the error wraps an underlying source error.
    pub fn has_source(&self) -> (r: bool)
        ensures
            r == (self is Wecom || self is Other),
    {
        match self {
            Error::Wecom(_) | Error::Other(_) => true,
            _ => false,
        }
    }

    /// The mapping of an authentication error onto this layer.
    pub open spec fn spec_from_auth(e: AuthError) -> Error {
        match e {
            AuthError::Transport(inner) => Error::Wecom(WecomError::Transport(inner)),
            AuthError::MissingCredentials(m) => Error::Auth(m),
            AuthError::QrTimeout => Error::QrTimeout,
            AuthError::Crypto(m) => Error::Crypto(m),
            AuthError::Storage(m) => Error::Other(m),
            AuthError::Other(m) => Error::Other(m),
        }
    }

    /// Leaving the layer towards the service-call layer: `Wecom` is unwrapped,
    /// a local variant is boxed into `Other`.
    pub open spec fn spec_into_wecom(self) -> WecomError {
        match self {
            Error::Wecom(inner) => inner,
            other => WecomError::Other(ErrorCause::Cli(Box::new(other))),
        }
    }

    /// Leaving the layer towards the transport layer: a carried transport
    /// error is unwrapped (keeping its backend code), anything else is boxed.
    pub open spec fn spec_into_transport(self) -> TransportError {
        match self {
            Error::Wecom(WecomError::Transport(inner)) => inner,
            other => TransportError::Other(ErrorCause::Cli(Box::new(other))),
        }
    }
}

impl From<WecomError> for Error {
    fn from(e: WecomError) -> (r: Error) {
        Error::Wecom(e)
    }
}

impl vstd::std_specs::convert::FromSpecImpl<WecomError> for Error {
    open spec fn obeys_from_spec() -> bool {
        true
    }

    open spec fn from_spec(e: WecomError) -> Error {
        Error::Wecom(e)
    }
}

impl From<TransportError> for Error {
    fn from(e: TransportError) -> (r: Error) {
        Error::Wecom(WecomError::Transport(e))
    }
}

impl vstd::std_specs::convert::FromSpecImpl<TransportError> for Error {
    open spec fn obeys_from_spec() -> bool {
        true
    }

    open spec fn from_spec(e: TransportError) -> Error {
        Error::Wecom(WecomError::Transport(e))
    }
}

impl From<AuthError> for Error {
    fn from(e: AuthError) -> (r: Error) {
        match e {
            AuthError::Transport(inner) => Error::Wecom(WecomError::Transport(inner)),
            AuthError::MissingCredentials(m) => Error::Auth(m),
            AuthError::QrTimeout => Error::QrTimeout,
            AuthError::Crypto(m) => Error::Crypto(m),
            AuthError::Storage(m) => Error::Other(m),
            AuthError::Other(m) => Error::Other(m),
        }
    }
}

impl vstd::std_specs::convert::FromSpecImpl<AuthError> for Error {
    open spec fn obeys_from_spec() -> bool {
        true
    }

    open spec fn from_spec(e: AuthError) -> Error {
        Error::spec_from_auth(e)
    }
}

impl From<Error> for WecomError {
    fn from(e: Error) -> (r: WecomError) {
        match e {
            Error::Wecom(inner) => inner,
            other => WecomError::Other(ErrorCause::Cli(Box::new(other))),
        }
    }
}

impl vstd::std_specs::convert::FromSpecImpl<Error> for WecomError {
    open spec fn obeys_from_spec() -> bool {
        true
    }

    open spec fn from_spec(e: Error) -> WecomError {
        e.spec_into_wecom()
    }
}

impl From<Error> for TransportError {
    fn from(e: Error) -> (r: TransportError) {
        match e {
            Error::Wecom(WecomError::Transport(inner)) => inner,
            other => TransportError::Other(ErrorCause::Cli(Box::new(other))),
        }
    }
}

impl vstd::std_specs::convert::FromSpecImpl<Error> for TransportError {
    open spec fn obeys_from_spec() -> bool {
        true
    }

    open spec fn from_spec(e: Error) -> TransportError {
        e.spec_into_transport()
    }
}

/// Law: crossing the layer boundary and back loses nothing. An error of the
/// service-call layer wrapped here comes back out unwrapped (no nesting);
/// a transport error carried here leaves towards the transport layer as
/// itself, keeping its code; an authentication error's transport error
/// arrives here unwrapped, keeping its code; and a boxed local error keeps
/// its display text as the message of the layer below.
pub proof fn law_error_layers_roundtrip(w: WecomError, t: TransportError, local: Error)
    requires
        !(local is Wecom),
    ensures
        Error::Wecom(w).spec_into_wecom() == w,
        Error::Wecom(WecomError::Transport(t)).spec_into_transport() == t,
        Error::Wecom(WecomError::Transport(t)).spec_code() == t.spec_code(),
        Error::spec_from_auth(AuthError::Transport(t)) == Error::Wecom(WecomError::Transport(t)),
        AuthError::Transport(t).spec_into_transport() == t,
        local.spec_into_wecom() == WecomError::Other(ErrorCause::Cli(Box::new(local))),
        local.spec_into_wecom().spec_message() == local.spec_display(),
        local.spec_into_wecom().spec_code() == E_OTHER,
{
}

#[verifier::external_type_specification]
#[verifier::external_body]
pub struct ExIoError(std::io::Error);

/// The `Display` text of a std I/O error; nothing is stated of it.
#[verifier::external_body]
fn io_error_text(e: &std::io::Error) -> String {
    e.to_string()
}

impl From<std::io::Error> for Error {
    /// A local I/O failure of the service-call layer, with the error's text.
    fn from(e: std::io::Error) -> (r: Error)
        ensures
            r matches Error::Wecom(WecomError::Io { .. }),
    {
        Error::Wecom(WecomError::Io { message: io_error_text(&e) })
    }
}

impl vstd::std_specs::convert::FromSpecImpl<std::io::Error> for Error {
    /// The text an I/O error carries is not modelled, so `from` is described
    /// by its own `ensures` only.
    open spec fn obeys_from_spec() -> bool {
        false
    }

    open spec fn from_spec(e: std::io::Error) -> Error {
        arbitrary()
    }
}

} // verus!
