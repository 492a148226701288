//! The authenticated backend's decisions: bearer-token injection, the
//! `RequireAuth` gate, the `SuppressAuth` exemption and the silent refresh on
//! an expired token (853004) followed by one replay of the request.
//!
//! The caller drives one request as follows: [`WecomBackend::authorize`]
//! before sending; on a failure, [`WecomBackend::on_failure`]; to refresh,
//! [`WecomBackend::begin_refresh`], the gateway call if it asks for one,
//! [`WecomBackend::complete_refresh`]; then [`WecomBackend::finish_refresh`]
//! names the token to replay with, or the original error to return.

use vstd::prelude::*;
use vstd::string::StringExecFns;

use crate::auth_error::AuthError;
use crate::credentials::{BotCredential, Credentials};
use crate::gateway::Endpoint;
use crate::provider::{opt_text, AccessToken, RefreshStep, TokenProvider};
use crate::media::{ascii_lower_char, ascii_lower_text};
use crate::text::{chars_of, push_char, str_eq};
use crate::transport::TransportError;

verus! {

broadcast use vstd::string::to_string_from_display_ensures_for_str;

/// Backend business code of an expired token.
pub const TOKEN_EXPIRED_ERRCODE: i64 = 853004;
/// Command name used in guidance messages by default.
pub const DEFAULT_BIN_NAME: &'static str = "wecom-cli";
/// Default API base URL.
pub const DEFAULT_BASE_URL: &'static str = "https://qyapi.weixin.qq.com/cli";

/// An expired-token error: a business error with code 853004.
pub open spec fn spec_token_expired(err: TransportError) -> bool {
    err matches TransportError::Api { code: Some(c), .. } && c == TOKEN_EXPIRED_ERRCODE
}

/// Whether `err` is the expired-token error that triggers a silent refresh.
pub fn is_token_expired(err: &TransportError) -> (r: bool)
    ensures
        r == spec_token_expired(*err),
{
    match err {
        TransportError::Api { code: Some(c), .. } => *c == TOKEN_EXPIRED_ERRCODE,
        _ => false,
    }
}

/// The value of the `Authorization` header for `token`.
pub fn bearer_value(token: &str) -> (r: String)
    ensures
        r@ == "Bearer "@ + token@,
{
    let mut v = "Bearer ".to_string();
    v.append(token);
    v
}

/// A header value `http` accepts: visible ASCII, space, tab, or any
/// non-ASCII character (control characters and DEL are refused).
pub open spec fn valid_header_value(v: Seq<char>) -> bool {
    forall|i: int| 0 <= i < v.len() ==> valid_header_char(#[trigger] v[i])
}

pub open spec fn valid_header_char(c: char) -> bool {
    c == '\t' || (c as u32 >= 32 && c as u32 != 127)
}

/// One request header: name, value, and whether the value is sensitive
/// (kept out of logs and debug output).
#[derive(Debug, Clone, PartialEq, Eq)]
pub struct RequestHeader {
    pub name: String,
    pub value: String,
    pub sensitive: bool,
}

/// Whether `name` is the `Authorization` header (names compare without ASCII case).
pub open spec fn is_authorization(name: Seq<char>) -> bool {
    ascii_lower_text(name) == "authorization"@
}

/// `headers` without their `Authorization` entries, in order.
pub open spec fn without_authorization(headers: Seq<RequestHeader>) -> Seq<RequestHeader>
    decreases headers.len(),
{
    if headers.len() == 0 {
        headers
    } else {
        let rest = without_authorization(headers.drop_last());
        if is_authorization(headers.last().name@) {
            rest
        } else {
            rest.push(headers.last())
        }
    }
}

fn is_authorization_name(name: &str) -> (r: bool)
    ensures
        r == is_authorization(name@),
{
    let v = chars_of(name);
    let mut lower = String::new();
    let mut i: usize = 0;
    while i < v.len()
        invariant
            i <= v.len(),
            v@ == name@,
            lower@ == ascii_lower_text(v@.subrange(0, i as int)),
        decreases v.len() - i,
    {
        let c = ascii_lower_char(v[i]);
        push_char(&mut lower, c);
        assert(ascii_lower_text(v@.subrange(0, i as int + 1)) =~= ascii_lower_text(
            v@.subrange(0, i as int),
        ).push(c));
        i = i + 1;
    }
    assert(v@.subrange(0, v.len() as int) =~= v@);
    str_eq(lower.as_str(), "authorization")
}

fn header_value_ok(value: &str) -> (r: bool)
    ensures
        r == valid_header_value(value@),
{
    let v = chars_of(value);
    let mut i: usize = 0;
    while i < v.len()
        invariant
            i <= v.len(),
            v@ == value@,
            forall|j: int| 0 <= j < i ==> valid_header_char(#[trigger] v@[j]),
        decreases v.len() - i,
    {
        let c = v[i];
        let n = c as u32;
        if !(c == '\t' || (n >= 32 && n != 127)) {
            assert(!valid_header_char(v@[i as int]));
            return false;
        }
        i = i + 1;
    }
    true
}

/// The request headers without any `Authorization` entry (the headers a
/// bootstrap request reuses: it must never carry the rejected token).
pub fn strip_authorization(headers: &Vec<RequestHeader>) -> (r: Vec<RequestHeader>)
    ensures
        r@ == without_authorization(headers@),
{
    let mut kept: Vec<RequestHeader> = Vec::new();
    let mut i: usize = 0;
    while i < headers.len()
        invariant
            i <= headers.len(),
            kept@ == without_authorization(headers@.subrange(0, i as int)),
        decreases headers.len() - i,
    {
        let drop = is_authorization_name(headers[i].name.as_str());
        proof {
            let next = headers@.subrange(0, i as int + 1);
            assert(next.drop_last() =~= headers@.subrange(0, i as int));
            assert(next.last() == headers@[i as int]);
        }
        if !drop {
            let h = RequestHeader {
                name: headers[i].name.clone(),
                value: headers[i].value.clone(),
                sensitive: headers[i].sensitive,
            };
            kept.push(h);
            assert(kept@ =~= without_authorization(headers@.subrange(0, i as int + 1)));
        }
        i = i + 1;
    }
    assert(headers@.subrange(0, headers@.len() as int) =~= headers@);
    kept
}

/// Sets `authorization: Bearer <token>` in the request headers, marked
/// sensitive, replacing every earlier `Authorization` entry (the new one
/// comes last); a token that makes no valid header value leaves the
/// headers as they are.
pub fn set_bearer_token(headers: &mut Vec<RequestHeader>, token: &str)
    ensures
        !valid_header_value("Bearer "@ + token@) ==> final(headers)@ == old(headers)@,
        valid_header_value("Bearer "@ + token@) ==> ({
            let kept = without_authorization(old(headers)@);
            &&& final(headers)@.len() == kept.len() + 1
            &&& final(headers)@.subrange(0, kept.len() as int) == kept
            &&& final(headers)@.last().name@ == "authorization"@
            &&& final(headers)@.last().value@ == "Bearer "@ + token@
            &&& final(headers)@.last().sensitive
        }),
{
    let value = bearer_value(token);
    if !header_value_ok(value.as_str()) {
        return;
    }
    let mut kept = strip_authorization(headers);
    let ghost kept_view = kept@;
    kept.push(RequestHeader { name: "authorization".to_string(), value, sensitive: true });
    assert(kept@.subrange(0, kept_view.len() as int) =~= kept_view);
    *headers = kept;
}

/// What to do after a failed request.
#[derive(Debug, Clone, Copy, PartialEq, Eq, Structural)]
pub enum FailureAction {
    /// Return the error as it is.
    Return,
    /// Refresh the token, then replay the request once.
    Refresh,
}

pub open spec fn gate_text(bin: Seq<char>) -> Seq<char> {
    "该请求需要授权，请先运行 `"@ + bin + "` auth init 登录"@
}

pub open spec fn no_provider_text(bin: Seq<char>) -> Seq<char> {
    "无 bot 凭据，无法静默刷新 token，请重新运行 `"@ + bin + "` auth init"@
}

/// The authorization of one request: a suppressed endpoint is sent without a
/// token; a gated endpoint without a cached token is refused before sending;
/// otherwise the cached token (if any) is sent.
pub open spec fn authorized(
    require_auth: bool,
    suppress_auth: bool,
    cached: Option<String>,
    bin: Seq<char>,
    r: Result<Option<String>, AuthError>,
) -> bool {
    if suppress_auth {
        r == Ok::<Option<String>, AuthError>(None)
    } else if require_auth && cached is None {
        r matches Err(AuthError::MissingCredentials(m)) && m@ == gate_text(bin)
    } else {
        r == Ok::<Option<String>, AuthError>(cached)
    }
}

/// The authenticated backend around an inner backend `B`, with an optional
/// token provider `P`, the cached token, and the command name of its guidance.
pub struct WecomBackend<B, P> {
    inner: B,
    provider: Option<P>,
    token: Option<String>,
    bin_name: String,
}

impl<B, P: TokenProvider> WecomBackend<B, P> {
    pub closed spec fn inner(self) -> B {
        self.inner
    }

    pub closed spec fn provider(self) -> Option<P> {
        self.provider
    }

    pub closed spec fn token(self) -> Option<String> {
        self.token
    }

    pub closed spec fn bin_name(self) -> Seq<char> {
        self.bin_name@
    }

    /// Wraps `inner`; `provider` is the token source (none: no refresh),
    /// `token` the initially cached token.
    pub fn new(inner: B, provider: Option<P>, token: Option<String>) -> (b: WecomBackend<B, P>)
        ensures
            b.inner() == inner,
            b.provider() == provider,
            b.token() == token,
            b.bin_name() == DEFAULT_BIN_NAME@,
    {
        WecomBackend { inner, provider, token, bin_name: DEFAULT_BIN_NAME.to_string() }
    }

    /// Sets the command name used in guidance messages.
    pub fn with_bin_name(self, bin_name: String) -> (b: WecomBackend<B, P>)
        ensures
            b.inner() == self.inner(),
            b.provider() == self.provider(),
            b.token() == self.token(),
            b.bin_name() == bin_name@,
    {
        WecomBackend { bin_name, ..self }
    }

    /// The cached token.
    pub fn cached_token(&self) -> (r: Option<String>)
        ensures
            r == self.token(),
    {
        match &self.token {
            Some(t) => Some(t.clone()),
            None => None,
        }
    }

    /// Debug text that names the inner backend (`inner_name`) only: neither
    /// the cached token nor the provider's secrets appear.
    pub fn debug_text(&self, inner_name: &str) -> (r: String)
        ensures
            r@ == "WecomBackend { backend: \""@ + inner_name@ + "\", .. }"@,
    {
        let mut s = "WecomBackend { backend: \"".to_string();
        s.append(inner_name);
        s.append("\", .. }");
        s
    }

    /// The inner backend.
    pub fn inner_backend(&self) -> (r: &B)
        ensures
            *r == self.inner(),
    {
        &self.inner
    }

    /// Whether a token provider is present.
    pub fn has_provider(&self) -> (r: bool)
        ensures
            r == self.provider() is Some,
    {
        self.provider.is_some()
    }

    /// Caches `token`.
    pub fn store_token(&mut self, token: String)
        ensures
            final(self).token() == Some(token),
            final(self).inner() == old(self).inner(),
            final(self).provider() == old(self).provider(),
            final(self).bin_name() == old(self).bin_name(),
    {
        self.token = Some(token);
    }

    /// Before sending: the token to send (`None`: no `Authorization` header),
    /// or the refusal of a gated endpoint without a token.
    pub fn authorize(&self, endpoint: &Endpoint) -> (r: Result<Option<String>, AuthError>)
        ensures
            authorized(endpoint.require_auth, endpoint.suppress_auth, self.token(), self.bin_name(), r),
    {
        if endpoint.suppress_auth {
            return Ok(None);
        }
        let token = self.cached_token();
        if endpoint.require_auth && token.is_none() {
            let mut m = "该请求需要授权，请先运行 `".to_string();
            m.append(self.bin_name.as_str());
            m.append("` auth init 登录");
            return Err(AuthError::MissingCredentials(m));
        }
        Ok(token)
    }

    /// After a failed attempt that sent `sent` (`replayed`: the attempt was
    /// already the replay after a refresh): refresh only when the token
    /// expired, a token was actually sent, there is a provider, and the
    /// request has not been replayed yet; a replay's result is final.
    pub fn on_failure(&self, err: &TransportError, sent: &Option<String>, replayed: bool) -> (r: FailureAction)
        ensures
            (r == FailureAction::Refresh) == (!replayed && spec_token_expired(*err) && sent is Some
                && self.provider() is Some),
    {
        if replayed {
            return FailureAction::Return;
        }
        if !is_token_expired(err) {
            return FailureAction::Return;
        }
        if sent.is_none() {
            return FailureAction::Return;
        }
        if self.provider.is_none() {
            return FailureAction::Return;
        }
        FailureAction::Refresh
    }

    fn no_provider_error(&self) -> (e: AuthError)
        ensures
            e matches AuthError::MissingCredentials(m) && m@ == no_provider_text(self.bin_name()),
    {
        let mut m = "无 bot 凭据，无法静默刷新 token，请重新运行 `".to_string();
        m.append(self.bin_name.as_str());
        m.append("` auth init");
        AuthError::MissingCredentials(m)
    }

    /// First step of a refresh: the provider's plan for the rejected token
    /// `stale`; without a provider, the missing-bot guidance.
    pub fn begin_refresh(&self, stale: Option<&str>) -> (r: Result<RefreshStep, AuthError>)
        ensures
            self.provider() is None ==> (r matches Err(AuthError::MissingCredentials(m)) && m@
                == no_provider_text(self.bin_name())),
            self.provider() matches Some(p) ==> p.plans(opt_text(stale), r),
    {
        match &self.provider {
            Some(p) => p.refresh_plan(stale),
            None => Err(self.no_provider_error()),
        }
    }

    /// Second step of a refresh (after the gateway answered): the arguments
    /// go to the provider unchanged and its answer is returned; without a
    /// provider, the missing-bot guidance and nothing changes.
    pub fn complete_refresh(
        &mut self,
        loaded: Option<Credentials>,
        bot: BotCredential,
        response_token: Option<String>,
        body: String,
    ) -> (r: Result<AccessToken, AuthError>)
        ensures
            old(self).provider() is None ==> (r matches Err(AuthError::MissingCredentials(m)) && m@
                == no_provider_text(old(self).bin_name())) && *final(self) == *old(self),
            old(self).provider() matches Some(p) ==> (final(self).provider() matches Some(q)
                && p.completes(loaded, bot, response_token, body, r, q)),
            final(self).token() == old(self).token(),
            final(self).bin_name() == old(self).bin_name(),
            final(self).inner() == old(self).inner(),
            final(self).provider() is Some == old(self).provider() is Some,
    {
        match self.provider.take() {
            Some(mut p) => {
                let r = p.refresh_complete(loaded, bot, response_token, body);
                self.provider = Some(p);
                r
            },
            None => Err(self.no_provider_error()),
        }
    }

    /// After the refresh: a new token is cached and the request is replayed
    /// with it; a failed refresh returns the original error.
    pub fn finish_refresh(&mut self, refreshed: Result<AccessToken, AuthError>, original: TransportError) -> (r:
        Result<String, TransportError>)
        ensures
            match refreshed {
                Ok(t) => r == Ok::<String, TransportError>(t.0) && final(self).token() == Some(t.0),
                Err(_) => r == Err::<String, TransportError>(original) && final(self).token()
                    == old(self).token(),
            },
            final(self).inner() == old(self).inner(),
            final(self).provider() == old(self).provider(),
            final(self).bin_name() == old(self).bin_name(),
    {
        match refreshed {
            Ok(t) => {
                let s = t.into_inner();
                self.store_token(s.clone());
                Ok(s)
            },
            Err(_) => Err(original),
        }
    }
}

/// Law: the bootstrap endpoint never carries a token, whatever is cached; a
/// gated endpoint is never sent without a token; an endpoint without marks
/// carries exactly the cached token.
pub proof fn law_authorization(
    endpoint: Endpoint,
    cached: Option<String>,
    bin: Seq<char>,
    r: Result<Option<String>, AuthError>,
)
    requires
        authorized(endpoint.require_auth, endpoint.suppress_auth, cached, bin, r),
    ensures
        endpoint.suppress_auth ==> r == Ok::<Option<String>, AuthError>(None),
        endpoint.require_auth && !endpoint.suppress_auth && r is Ok ==> r matches Ok(Some(_)),
        !endpoint.require_auth && !endpoint.suppress_auth ==> r == Ok::<Option<String>, AuthError>(cached),
{
}

/// Law: a request is replayed at most once, and only after an expired token
/// that was actually sent: a refresh is asked for only on error 853004 of a
/// first attempt that carried a token, with a provider at hand; a replay's
/// failure is returned as it is.
pub proof fn law_refresh_then_replay(
    err: TransportError,
    sent: Option<String>,
    has_provider: bool,
    replayed: bool,
    action: FailureAction,
)
    requires
        (action == FailureAction::Refresh) == (!replayed && spec_token_expired(err) && sent is Some
            && has_provider),
    ensures
        action == FailureAction::Refresh ==> (err matches TransportError::Api { code: Some(c), .. } && c
            == TOKEN_EXPIRED_ERRCODE),
        replayed ==> action == FailureAction::Return,
        sent is None ==> action == FailureAction::Return,
        !has_provider ==> action == FailureAction::Return,
{
}

} // verus!
