//! Building an authenticated client: the builder's settings, the initial
//! token, and the backend it wraps around the HTTP transport.

use std::time::Duration;

use vstd::prelude::*;
use vstd::string::StringExecFns;

use crate::auth_error::AuthError;
use crate::backend::{WecomBackend, DEFAULT_BASE_URL, DEFAULT_BIN_NAME};
use crate::provider::{AccessToken, TokenProvider};
use crate::transport::TransportError;

verus! {

broadcast use vstd::string::to_string_from_display_ensures_for_str;

/// Builder of an authenticated client.
pub struct WecomClientBuilder<P> {
    base_url: String,
    provider: Option<P>,
    initial_token: Option<String>,
    timeout: Option<Duration>,
    headers: Vec<(String, String)>,
    bin_name: String,
}

/// The initial token the backend starts with, given the provider's answer
/// (`provided`, asked only when no token was preset): a preset token wins;
/// else the provider's token (none without credentials); a provider error
/// becomes a transport error; without a provider, none.
pub open spec fn initial_token_of(
    preset: Option<String>,
    provided: Option<Result<Option<AccessToken>, AuthError>>,
) -> Result<Option<String>, TransportError> {
    match preset {
        Some(t) => Ok(Some(t)),
        None => match provided {
            None => Ok(None),
            Some(Ok(None)) => Ok(None),
            Some(Ok(Some(t))) => Ok(Some(t.0)),
            Some(Err(e)) => Err(e.spec_into_transport()),
        },
    }
}

/// The initial token (see [`initial_token_of`]).
pub fn settle_initial_token(
    preset: Option<String>,
    provided: Option<Result<Option<AccessToken>, AuthError>>,
) -> (r: Result<Option<String>, TransportError>)
    ensures
        r == initial_token_of(preset, provided),
{
    match preset {
        Some(t) => Ok(Some(t)),
        None => match provided {
            None => Ok(None),
            Some(Ok(None)) => Ok(None),
            Some(Ok(Some(t))) => Ok(Some(t.into_inner())),
            Some(Err(e)) => Err(TransportError::from(e)),
        },
    }
}

impl<P: TokenProvider> WecomClientBuilder<P> {
    pub closed spec fn spec_base_url(self) -> Seq<char> {
        self.base_url@
    }

    pub closed spec fn spec_provider(self) -> Option<P> {
        self.provider
    }

    pub closed spec fn spec_initial_token(self) -> Option<String> {
        self.initial_token
    }

    pub closed spec fn spec_timeout(self) -> Option<Duration> {
        self.timeout
    }

    pub closed spec fn spec_headers(self) -> Seq<(String, String)> {
        self.headers@
    }

    pub closed spec fn spec_bin_name(self) -> Seq<char> {
        self.bin_name@
    }

    /// A builder for the product gateway: default base URL and command name,
    /// no provider, no preset token, no timeout, no extra headers.
    pub fn new() -> (b: WecomClientBuilder<P>)
        ensures
            b.spec_base_url() == DEFAULT_BASE_URL@,
            b.spec_provider() is None,
            b.spec_initial_token() is None,
            b.spec_timeout() is None,
            b.spec_headers().len() == 0,
            b.spec_bin_name() == DEFAULT_BIN_NAME@,
    {
        WecomClientBuilder {
            base_url: DEFAULT_BASE_URL.to_string(),
            provider: None,
            initial_token: None,
            timeout: None,
            headers: Vec::new(),
            bin_name: DEFAULT_BIN_NAME.to_string(),
        }
    }

    /// Overrides the service base URL.
    pub fn base_url(self, base_url: String) -> (b: WecomClientBuilder<P>)
        ensures
            b.spec_base_url() == base_url@,
            b.spec_provider() == self.spec_provider(),
            b.spec_initial_token() == self.spec_initial_token(),
            b.spec_timeout() == self.spec_timeout(),
            b.spec_headers() == self.spec_headers(),
            b.spec_bin_name() == self.spec_bin_name(),
    {
        WecomClientBuilder { base_url, ..self }
    }

    /// Sets the token provider (source of the token and of silent refreshes).
    pub fn token_provider(self, provider: P) -> (b: WecomClientBuilder<P>)
        ensures
            b.spec_base_url() == self.spec_base_url(),
            b.spec_provider() == Some(provider),
            b.spec_initial_token() == self.spec_initial_token(),
            b.spec_timeout() == self.spec_timeout(),
            b.spec_headers() == self.spec_headers(),
            b.spec_bin_name() == self.spec_bin_name(),
    {
        WecomClientBuilder { provider: Some(provider), ..self }
    }

    /// Presets the initial token (it then wins over the provider's).
    pub fn initial_token(self, token: String) -> (b: WecomClientBuilder<P>)
        ensures
            b.spec_base_url() == self.spec_base_url(),
            b.spec_provider() == self.spec_provider(),
            b.spec_initial_token() == Some(token),
            b.spec_timeout() == self.spec_timeout(),
            b.spec_headers() == self.spec_headers(),
            b.spec_bin_name() == self.spec_bin_name(),
    {
        WecomClientBuilder { initial_token: Some(token), ..self }
    }

    /// Sets the per-request timeout.
    pub fn timeout(self, timeout: Duration) -> (b: WecomClientBuilder<P>)
        ensures
            b.spec_base_url() == self.spec_base_url(),
            b.spec_provider() == self.spec_provider(),
            b.spec_initial_token() == self.spec_initial_token(),
            b.spec_timeout() == Some(timeout),
            b.spec_headers() == self.spec_headers(),
            b.spec_bin_name() == self.spec_bin_name(),
    {
        WecomClientBuilder { timeout: Some(timeout), ..self }
    }

    /// Adds a default request header (names and values are checked when the
    /// transport is built).
    pub fn header(self, name: String, value: String) -> (b: WecomClientBuilder<P>)
        ensures
            b.spec_base_url() == self.spec_base_url(),
            b.spec_provider() == self.spec_provider(),
            b.spec_initial_token() == self.spec_initial_token(),
            b.spec_timeout() == self.spec_timeout(),
            b.spec_headers() == self.spec_headers().push((name, value)),
            b.spec_bin_name() == self.spec_bin_name(),
    {
        let mut b = self;
        b.headers.push((name, value));
        b
    }

    /// Sets the command name of the guidance messages.
    pub fn bin_name(self, bin_name: String) -> (b: WecomClientBuilder<P>)
        ensures
            b.spec_base_url() == self.spec_base_url(),
            b.spec_provider() == self.spec_provider(),
            b.spec_initial_token() == self.spec_initial_token(),
            b.spec_timeout() == self.spec_timeout(),
            b.spec_headers() == self.spec_headers(),
            b.spec_bin_name() == bin_name@,
    {
        WecomClientBuilder { bin_name, ..self }
    }

    /// The service base URL.
    pub fn base_url_text(&self) -> (r: &str)
        ensures
            r@ == self.spec_base_url(),
    {
        self.base_url.as_str()
    }

    /// The default request headers, in the order they were added.
    pub fn default_headers(&self) -> (r: &Vec<(String, String)>)
        ensures
            r@ == self.spec_headers(),
    {
        &self.headers
    }

    /// The per-request timeout.
    pub fn request_timeout(&self) -> (r: Option<Duration>)
        ensures
            r == self.spec_timeout(),
    {
        self.timeout
    }

    /// The initial token of the backend: the preset one, else the provider's
    /// (asked only then), else none.
    pub fn resolve_initial_token(&self) -> (r: Result<Option<String>, TransportError>)
        ensures
            self.spec_initial_token() matches Some(t) ==> r == Ok::<Option<String>, TransportError>(Some(t)),
            self.spec_initial_token() is None && self.spec_provider() is None ==> r == Ok::<
                Option<String>,
                TransportError,
            >(None),
            self.spec_initial_token() is None && self.spec_provider() is Some ==> exists|
                provided: Result<Option<AccessToken>, AuthError>,
            | #[trigger] self.spec_provider()->0.reads(provided) && r == initial_token_of(
                None,
                Some(provided),
            ),
    {
        match &self.initial_token {
            Some(t) => Ok(Some(t.clone())),
            None => match &self.provider {
                Some(p) => {
                    let provided = p.access_token();
                    settle_initial_token(None, Some(provided))
                },
                None => Ok(None),
            },
        }
    }

    /// The authenticated backend around `inner`: this builder's provider,
    /// `initial_token` as the cached token, and its command name.
    pub fn into_backend<B>(self, inner: B, initial_token: Option<String>) -> (b: WecomBackend<B, P>)
        ensures
            b.inner() == inner,
            b.provider() == self.spec_provider(),
            b.token() == initial_token,
            b.bin_name() == self.spec_bin_name(),
    {
        WecomBackend::new(inner, self.provider, initial_token).with_bin_name(self.bin_name)
    }
}

impl<P: TokenProvider> Default for WecomClientBuilder<P> {
    fn default() -> (b: WecomClientBuilder<P>)
        ensures
            b.spec_base_url() == DEFAULT_BASE_URL@,
            b.spec_provider() is None,
            b.spec_initial_token() is None,
            b.spec_timeout() is None,
            b.spec_headers().len() == 0,
            b.spec_bin_name() == DEFAULT_BIN_NAME@,
    {
        WecomClientBuilder::new()
    }
}

/// The client facade around a service client `C`.
pub struct WecomClient<C> {
    inner: C,
}

impl<C> WecomClient<C> {
    pub closed spec fn spec_inner(self) -> C {
        self.inner
    }

    /// Wraps a configured client, leaving its configuration as it is.
    pub fn from_client(inner: C) -> (c: WecomClient<C>)
        ensures
            c.spec_inner() == inner,
    {
        WecomClient { inner }
    }

    /// The wrapped client.
    pub fn inner(&self) -> (r: &C)
        ensures
            *r == self.spec_inner(),
    {
        &self.inner
    }

    /// The wrapped client, giving up the facade.
    pub fn into_inner(self) -> (r: C)
        ensures
            r == self.spec_inner(),
    {
        self.inner
    }
}

} // verus!
