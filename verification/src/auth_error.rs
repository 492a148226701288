//! Errors of the authentication layer (code range 893300–893399).

use vstd::prelude::*;
use vstd::string::StringExecFns;

use crate::text::{tagged, tagged_text};
use crate::transport::{ErrorCause, TransportError};

verus! {

broadcast use vstd::string::to_string_from_display_ensures_for_str;

/// No usable credential / token.
pub const E_AUTH_MISSING: i64 = 893301;
/// QR-code scan timed out.
pub const E_QR_TIMEOUT: i64 = 893302;
/// Credential encryption / decryption / key failure.
pub const E_CRYPTO: i64 = 893303;
/// Credential storage read / write failure.
pub const E_STORAGE: i64 = 893304;
/// Shared catch-all code.
pub const E_OTHER: i64 = 893999;

/// The fixed guidance text of a QR-code scan timeout.
pub open spec fn qr_timeout_text() -> Seq<char> {
    "扫码超时（5 分钟），请重试"@
}

pub fn qr_timeout_message() -> (r: String)
    ensures
        r@ == qr_timeout_text(),
{
    "扫码超时（5 分钟），请重试".to_string()
}

/// Authentication-layer error.
#[derive(Debug)]
pub enum AuthError {
    /// Authorization is needed but no credential / token is available, or no
    /// bot credential is there to refresh the token silently.
    MissingCredentials(String),
    /// QR-code scan timed out (5 minutes).
    QrTimeout,
    /// Credential encryption / decryption / key failure.
    Crypto(String),
    /// Credential storage read / write failure.
    Storage(String),
    /// A transport-layer error passed through.
    Transport(TransportError),
    /// Catch-all for unexpected failures.
    Other(String),
}

impl AuthError {
    pub open spec fn spec_code(self) -> int {
        match self {
            AuthError::Transport(inner) => inner.spec_code(),
            AuthError::MissingCredentials(_) => E_AUTH_MISSING as int,
            AuthError::QrTimeout => E_QR_TIMEOUT as int,
            AuthError::Crypto(_) => E_CRYPTO as int,
            AuthError::Storage(_) => E_STORAGE as int,
            AuthError::Other(_) => E_OTHER as int,
        }
    }

    pub open spec fn spec_message(self) -> Seq<char> {
        match self {
            AuthError::Transport(inner) => inner.spec_display(),
            AuthError::MissingCredentials(m) => m@,
            AuthError::Crypto(m) => m@,
            AuthError::Storage(m) => m@,
            AuthError::QrTimeout => qr_timeout_text(),
            AuthError::Other(m) => m@,
        }
    }

    pub open spec fn spec_display(self) -> Seq<char>
        decreases self,
    {
        match self {
            AuthError::MissingCredentials(m) => tagged("AuthError"@, m@, self.spec_code()),
            AuthError::QrTimeout => tagged("QrTimeout"@, qr_timeout_text(), self.spec_code()),
            AuthError::Crypto(m) => tagged("CryptoError"@, m@, self.spec_code()),
            AuthError::Storage(m) => tagged("StorageError"@, m@, self.spec_code()),
            AuthError::Transport(inner) => inner.spec_display(),
            AuthError::Other(m) => tagged("UnknownError"@, m@, self.spec_code()),
        }
    }

    /// Category code: transport errors keep their own code; the local variants
    /// use their 8933xx codes; `Other` uses the shared catch-all.
    pub fn code(&self) -> (r: i64)
        ensures
            r == self.spec_code(),
    {
        match self {
            AuthError::Transport(inner) => inner.code(),
            AuthError::MissingCredentials(_) => E_AUTH_MISSING,
            AuthError::QrTimeout => E_QR_TIMEOUT,
            AuthError::Crypto(_) => E_CRYPTO,
            AuthError::Storage(_) => E_STORAGE,
            AuthError::Other(_) => E_OTHER,
        }
    }

    /// Human-readable message (a transport error gives its display text).
    pub fn message(&self) -> (r: String)
        ensures
            r@ == self.spec_message(),
    {
        match self {
            AuthError::Transport(inner) => inner.display_text(),
            AuthError::MissingCredentials(m) => m.clone(),
            AuthError::Crypto(m) => m.clone(),
            AuthError::Storage(m) => m.clone(),
            AuthError::QrTimeout => qr_timeout_message(),
            AuthError::Other(m) => m.clone(),
        }
    }

    /// Display text: `Type: message [code=N]`; a transport error shows its own.
    pub fn display_text(&self) -> (r: String)
        ensures
            r@ == self.spec_display(),
        decreases self,
    {
        match self {
            AuthError::MissingCredentials(m) => tagged_text("AuthError", m.as_str(), self.code()),
            AuthError::QrTimeout => {
                let m = qr_timeout_message();
                tagged_text("QrTimeout", m.as_str(), self.code())
            },
            AuthError::Crypto(m) => tagged_text("CryptoError", m.as_str(), self.code()),
            AuthError::Storage(m) => tagged_text("StorageError", m.as_str(), self.code()),
            AuthError::Transport(inner) => inner.display_text(),
            AuthError::Other(m) => tagged_text("UnknownError", m.as_str(), self.code()),
        }
    }

    /// The transport error this error becomes when it leaves the layer:
    /// a passed-through transport error is unwrapped, any other is boxed.
    pub open spec fn spec_into_transport(self) -> TransportError {
        match self {
            AuthError::Transport(inner) => inner,
            other => TransportError::Other(ErrorCause::Auth(Box::new(other))),
        }
    }
}

impl From<TransportError> for AuthError {
    fn from(e: TransportError) -> (r: AuthError) {
        AuthError::Transport(e)
    }
}

impl vstd::std_specs::convert::FromSpecImpl<TransportError> for AuthError {
    open spec fn obeys_from_spec() -> bool {
        true
    }

    open spec fn from_spec(e: TransportError) -> AuthError {
        AuthError::Transport(e)
    }
}

impl From<AuthError> for TransportError {
    fn from(e: AuthError) -> (r: TransportError) {
        match e {
            AuthError::Transport(inner) => inner,
            other => TransportError::Other(ErrorCause::Auth(Box::new(other))),
        }
    }
}

impl vstd::std_specs::convert::FromSpecImpl<AuthError> for TransportError {
    open spec fn obeys_from_spec() -> bool {
        true
    }

    open spec fn from_spec(e: AuthError) -> TransportError {
        e.spec_into_transport()
    }
}

} // verus!
