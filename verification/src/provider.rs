//! Token providers: reading the current access token and the decisions of a
//! silent refresh through the bot gateway.
//!
//! A refresh runs in two steps around the network call: [`TokenProvider::refresh_plan`]
//! decides whether a token that a concurrent request already refreshed can be
//! reused, or which bot credential to exchange; [`TokenProvider::refresh_complete`]
//! takes the gateway's answer, persists the new token and returns it.

use vstd::prelude::*;
use vstd::string::StringExecFns;

use crate::auth_error::AuthError;
use crate::credentials::{BotCredential, CredentialStore, Credentials};
use crate::gateway::{auth_endpoint, default_auth_endpoint_text, Endpoint, Envelope, DEFAULT_AUTH_ENDPOINT};
use crate::text::str_eq;
use crate::transport::TransportError;

verus! {

broadcast use vstd::string::to_string_from_display_ensures_for_str;

/// Bearer access token.
#[derive(Debug, PartialEq, Eq)]
pub struct AccessToken(pub String);

impl Clone for AccessToken {
    fn clone(&self) -> (r: AccessToken)
        ensures
            r == *self,
    {
        AccessToken(self.0.clone())
    }
}

impl AccessToken {
    pub fn new(token: String) -> (t: AccessToken)
        ensures
            t.0 == token,
    {
        AccessToken(token)
    }

    pub fn as_str(&self) -> (r: &str)
        ensures
            r@ == self.0@,
    {
        self.0.as_str()
    }

    pub fn into_inner(self) -> (r: String)
        ensures
            r == self.0,
    {
        self.0
    }
}

/// How the bot was bound (sent along with the bootstrap request).
#[derive(Debug, Clone, Copy, PartialEq, Eq, Structural)]
pub enum BindSource {
    /// Bot ID and secret entered by hand (or given directly).
    Interactive,
    /// Bound by scanning a QR code.
    Qrcode,
}

/// The default raw HTTP backend of the bootstrap request.
#[derive(Debug, Clone, Copy, Default, PartialEq, Eq)]
pub struct DefaultHttpBackend;

/// Where a refresh goes after its first step.
#[derive(Debug)]
pub enum RefreshStep {
    /// The stored token already differs from the stale one: a concurrent
    /// request refreshed it; reuse it, no bootstrap call.
    Reuse(AccessToken),
    /// Exchange this bot credential for a token; `loaded` is the ledger as read.
    Fetch { bot: BotCredential, loaded: Option<Credentials> },
}

/// The token a load result offers: the stored token, unless it is empty.
pub open spec fn offered_token(loaded: Option<Credentials>) -> Option<AccessToken> {
    match loaded {
        Some(c) => match c.token {
            Some(t) => if t@.len() > 0 {
                Some(AccessToken(t))
            } else {
                None
            },
            None => None,
        },
        None => None,
    }
}

/// What a token read answers for a load result: the store's error as it
/// is, or the token it offers.
pub open spec fn token_read(loaded: Result<Option<Credentials>, AuthError>) -> Result<Option<AccessToken>, AuthError> {
    match loaded {
        Ok(c) => Ok(offered_token(c)),
        Err(e) => Err(e),
    }
}

/// The current token of a load result (see [`token_read`]).
pub fn access_token_from(loaded: Result<Option<Credentials>, AuthError>) -> (r: Result<
    Option<AccessToken>,
    AuthError,
>)
    ensures
        r == token_read(loaded),
{
    let loaded = match loaded {
        Ok(l) => l,
        Err(e) => {
            return Err(e);
        },
    };
    match loaded {
        Some(c) => match c.token {
            Some(t) => {
                if t.as_str().is_empty() {
                    Ok(None)
                } else {
                    Ok(Some(AccessToken::new(t)))
                }
            },
            None => Ok(None),
        },
        None => Ok(None),
    }
}

/// The bot of a refresh: the override, else the stored one.
pub open spec fn resolved_bot(bot_override: Option<BotCredential>, loaded: Option<Credentials>) -> Option<
    BotCredential,
> {
    match bot_override {
        Some(b) => Some(b),
        None => match loaded {
            Some(c) => c.bot,
            None => None,
        },
    }
}

/// The stored token of a load result.
pub open spec fn stored_token(loaded: Option<Credentials>) -> Option<String> {
    match loaded {
        Some(c) => c.token,
        None => None,
    }
}

pub open spec fn missing_bot_text() -> Seq<char> {
    "无 bot 凭据，无法静默刷新 token"@
}

/// The first decision of a refresh: reuse a stored token that differs from
/// the stale one; else exchange the override bot (or the stored one); else
/// fail for want of a bot credential.
pub open spec fn refresh_decided(
    loaded: Option<Credentials>,
    stale: Option<Seq<char>>,
    bot_override: Option<BotCredential>,
    r: Result<RefreshStep, AuthError>,
) -> bool {
    let stored = stored_token(loaded);
    if stored is Some && Some(stored->0@) != stale {
        r == Ok::<RefreshStep, AuthError>(RefreshStep::Reuse(AccessToken(stored->0)))
    } else {
        match resolved_bot(bot_override, loaded) {
            Some(b) => r == Ok::<RefreshStep, AuthError>(RefreshStep::Fetch { bot: b, loaded }),
            None => r matches Err(AuthError::MissingCredentials(m)) && m@ == missing_bot_text(),
        }
    }
}

/// The text of an optional string slice.
pub open spec fn opt_text(o: Option<&str>) -> Option<Seq<char>> {
    match o {
        Some(s) => Some(s@),
        None => None,
    }
}

/// The first decision of a refresh, on the ledger as loaded.
pub fn decide_refresh(
    loaded: Option<Credentials>,
    stale: Option<&str>,
    bot_override: &Option<BotCredential>,
) -> (r: Result<RefreshStep, AuthError>)
    ensures
        refresh_decided(loaded, opt_text(stale), *bot_override, r),
        (loaded matches Some(c) && c.token matches Some(t) && Some(t@) != opt_text(stale))
            ==> r == Ok::<RefreshStep, AuthError>(RefreshStep::Reuse(AccessToken(loaded->0.token->0))),
        !(loaded matches Some(c) && c.token matches Some(t) && Some(t@) != opt_text(stale)) ==> {
            &&& (bot_override matches Some(b)) ==> r == Ok::<RefreshStep, AuthError>(
                RefreshStep::Fetch { bot: bot_override->0, loaded },
            )
            &&& (bot_override is None && (loaded matches Some(c) && c.bot is Some)) ==> r == Ok::<
                RefreshStep,
                AuthError,
            >(RefreshStep::Fetch { bot: loaded->0.bot->0, loaded })
            &&& (bot_override is None && !(loaded matches Some(c) && c.bot is Some)) ==> (r matches Err(
                AuthError::MissingCredentials(m),
            ) && m@ == "无 bot 凭据，无法静默刷新 token"@)
        },
{
    let stored: Option<String> = match &loaded {
        Some(c) => match &c.token {
            Some(t) => Some(t.clone()),
            None => None,
        },
        None => None,
    };
    if let Some(t) = stored {
        let same = match stale {
            Some(s) => str_eq(t.as_str(), s),
            None => false,
        };
        if !same {
            return Ok(RefreshStep::Reuse(AccessToken::new(t)));
        }
    }
    let bot = match bot_override {
        Some(b) => Some(b.clone()),
        None => match &loaded {
            Some(c) => match &c.bot {
                Some(b) => Some(b.clone()),
                None => None,
            },
            None => None,
        },
    };
    match bot {
        Some(b) => Ok(RefreshStep::Fetch { bot: b, loaded }),
        None => Err(AuthError::MissingCredentials("无 bot 凭据，无法静默刷新 token".to_string())),
    }
}

/// The message of a bootstrap answer without a token.
pub open spec fn missing_token_text() -> Seq<char> {
    "token 刷新响应缺少访问令牌"@
}

/// The second step of a refresh: the gateway answered `response_token`
/// (`body` is the answer as JSON text). An absent or empty token is a
/// protocol error; otherwise the ledger keeps its bot (or takes the one
/// exchanged) and gets the new token.
pub fn refresh_outcome(
    loaded: Option<Credentials>,
    bot: BotCredential,
    response_token: Option<String>,
    endpoint_url: &str,
    body: String,
) -> (r: Result<(Credentials, AccessToken), AuthError>)
    ensures
        match response_token {
            Some(t) if t@.len() > 0 => r matches Ok((c, a)) && a.0 == t && c.token == Some(t)
                && c.bot == (match loaded {
                    Some(l) if l.bot is Some => l.bot,
                    _ => Some(bot),
                }),
            _ => r matches Err(AuthError::Transport(TransportError::Parse { message, endpoint, body: b }))
                && message@ == missing_token_text() && endpoint@ == endpoint_url@ && b == body,
        },
{
    let token = match response_token {
        Some(t) => {
            if t.as_str().is_empty() {
                None
            } else {
                Some(t)
            }
        },
        None => None,
    };
    let token = match token {
        Some(t) => t,
        None => {
            return Err(AuthError::Transport(TransportError::Parse {
                message: "token 刷新响应缺少访问令牌".to_string(),
                endpoint: endpoint_url.to_string(),
                body,
            }));
        },
    };
    let mut creds = match loaded {
        Some(c) => c,
        None => Credentials::default(),
    };
    if creds.bot.is_none() {
        creds.bot = Some(bot);
    }
    let t2 = token.clone();
    creds.token = Some(token);
    Ok((creds, AccessToken::new(t2)))
}

/// A source of access tokens for the authenticated transport. What each
/// call may answer (and, for the second refresh step, leave behind) is
/// stated by the implementation's spec functions.
pub trait TokenProvider: Sized {
    /// The answers a token read may give.
    spec fn reads(&self, r: Result<Option<AccessToken>, AuthError>) -> bool;

    /// The answers the first refresh step may give after `stale` was rejected.
    spec fn plans(&self, stale: Option<Seq<char>>, r: Result<RefreshStep, AuthError>) -> bool;

    /// The answers the second refresh step may give for these arguments,
    /// with `after` the provider it leaves behind.
    spec fn completes(
        &self,
        loaded: Option<Credentials>,
        bot: BotCredential,
        response_token: Option<String>,
        body: String,
        r: Result<AccessToken, AuthError>,
        after: Self,
    ) -> bool;

    /// The current token (`None` without credentials); no network call.
    fn access_token(&self) -> (r: Result<Option<AccessToken>, AuthError>)
        ensures
            self.reads(r),
    ;

    /// First step of a refresh after `stale_token` was rejected.
    fn refresh_plan(&self, stale_token: Option<&str>) -> (r: Result<RefreshStep, AuthError>)
        ensures
            self.plans(opt_text(stale_token), r),
    ;

    /// Second step of a refresh: persist and return the token the gateway sent.
    fn refresh_complete(
        &mut self,
        loaded: Option<Credentials>,
        bot: BotCredential,
        response_token: Option<String>,
        body: String,
    ) -> (r: Result<AccessToken, AuthError>)
        ensures
            old(self).completes(loaded, bot, response_token, body, r, *final(self)),
    ;
}

/// The ledger a refresh writes: the stored bot (or the one exchanged) and
/// the new token.
pub open spec fn refreshed_ledger(loaded: Option<Credentials>, bot: BotCredential, token: String) -> Credentials {
    Credentials {
        bot: match loaded {
            Some(l) if l.bot is Some => l.bot,
            _ => Some(bot),
        },
        token: Some(token),
    }
}

/// Token provider of the bot CLI gateway: bot ID and signed secret are
/// exchanged for a bearer token at the bootstrap endpoint; tokens are read
/// from and written back to the credential store.
pub struct BotGatewayTokenProvider<S, B> {
    store: S,
    auth_endpoint: Endpoint,
    backend: B,
    bind_source: BindSource,
    bot: Option<BotCredential>,
}

impl<S: CredentialStore> BotGatewayTokenProvider<S, DefaultHttpBackend> {
    /// A provider on `store` with the default bootstrap endpoint and backend,
    /// bind source `Interactive`, and the bot read from the store at each refresh.
    pub fn from_store(store: S) -> (p: BotGatewayTokenProvider<S, DefaultHttpBackend>)
        ensures
            p.store() == store,
            p.auth_endpoint().url@ == default_auth_endpoint_text(),
            p.auth_endpoint().envelope == Envelope::Flat,
            p.auth_endpoint().suppress_auth,
            !p.auth_endpoint().require_auth,
            p.bind_source() == BindSource::Interactive,
            p.bot() is None,
    {
        BotGatewayTokenProvider {
            store,
            auth_endpoint: auth_endpoint(DEFAULT_AUTH_ENDPOINT),
            backend: DefaultHttpBackend,
            bind_source: BindSource::Interactive,
            bot: None,
        }
    }

    /// A provider with a fixed bot credential (created now).
    pub fn new(bot_id: String, secret: String, store: S) -> (p: BotGatewayTokenProvider<S, DefaultHttpBackend>)
        ensures
            p.store() == store,
            p.auth_endpoint().url@ == default_auth_endpoint_text(),
            p.auth_endpoint().envelope == Envelope::Flat,
            p.auth_endpoint().suppress_auth,
            !p.auth_endpoint().require_auth,
            p.bind_source() == BindSource::Interactive,
            p.bot() matches Some(b) && b.id == bot_id && b.secret == secret,
    {
        Self::from_store(store).with_bot(BotCredential::new(bot_id, secret))
    }
}

impl<S: CredentialStore, B> BotGatewayTokenProvider<S, B> {
    pub closed spec fn store(self) -> S {
        self.store
    }

    pub closed spec fn auth_endpoint(self) -> Endpoint {
        self.auth_endpoint
    }

    pub closed spec fn backend(self) -> B {
        self.backend
    }

    pub closed spec fn bind_source(self) -> BindSource {
        self.bind_source
    }

    pub closed spec fn bot(self) -> Option<BotCredential> {
        self.bot
    }

    /// Replaces the bootstrap endpoint.
    pub fn with_auth_endpoint(self, endpoint: Endpoint) -> (p: Self)
        ensures
            p.auth_endpoint() == endpoint,
            p.store() == self.store(),
            p.backend() == self.backend(),
            p.bind_source() == self.bind_source(),
            p.bot() == self.bot(),
    {
        BotGatewayTokenProvider { auth_endpoint: endpoint, ..self }
    }

    /// Replaces the raw backend of the bootstrap request.
    pub fn with_backend<B2>(self, backend: B2) -> (p: BotGatewayTokenProvider<S, B2>)
        ensures
            p.backend() == backend,
            p.store() == self.store(),
            p.auth_endpoint() == self.auth_endpoint(),
            p.bind_source() == self.bind_source(),
            p.bot() == self.bot(),
    {
        BotGatewayTokenProvider {
            store: self.store,
            auth_endpoint: self.auth_endpoint,
            backend,
            bind_source: self.bind_source,
            bot: self.bot,
        }
    }

    /// Fixes the bot credential (it takes precedence over the stored one).
    pub fn with_bot(self, bot: BotCredential) -> (p: Self)
        ensures
            p.bot() == Some(bot),
            p.store() == self.store(),
            p.auth_endpoint() == self.auth_endpoint(),
            p.backend() == self.backend(),
            p.bind_source() == self.bind_source(),
    {
        BotGatewayTokenProvider { bot: Some(bot), ..self }
    }

    /// Replaces the bind source.
    pub fn with_bind_source(self, bind_source: BindSource) -> (p: Self)
        ensures
            p.bind_source() == bind_source,
            p.store() == self.store(),
            p.auth_endpoint() == self.auth_endpoint(),
            p.backend() == self.backend(),
            p.bot() == self.bot(),
    {
        BotGatewayTokenProvider { bind_source, ..self }
    }

    /// The bootstrap endpoint.
    pub fn endpoint(&self) -> (r: &Endpoint)
        ensures
            *r == self.auth_endpoint(),
    {
        &self.auth_endpoint
    }

    /// The raw backend of the bootstrap request.
    pub fn raw_backend(&self) -> (r: &B)
        ensures
            *r == self.backend(),
    {
        &self.backend
    }

    /// The bind source sent with the bootstrap request.
    pub fn get_bind_source(&self) -> (r: BindSource)
        ensures
            r == self.bind_source(),
    {
        self.bind_source
    }

    /// The bot credential of a refresh: the fixed one, else the stored one.
    pub fn resolve_bot(&self, creds: Option<&Credentials>) -> (r: Option<BotCredential>)
        ensures
            r == resolved_bot(
                self.bot(),
                match creds {
                    Some(c) => Some(*c),
                    None => None,
                },
            ),
    {
        match &self.bot {
            Some(b) => Some(b.clone()),
            None => match creds {
                Some(c) => match &c.bot {
                    Some(b) => Some(b.clone()),
                    None => None,
                },
                None => None,
            },
        }
    }

    /// The credential store.
    pub fn credential_store(&self) -> (r: &S)
        ensures
            *r == self.store(),
    {
        &self.store
    }

    /// Debug text that names the bind source only (no secret, no store content).
    pub fn debug_text(&self) -> (r: String)
        ensures
            r@ == (match self.bind_source() {
                BindSource::Interactive => "BotGatewayTokenProvider { bind_source: Interactive, .. }"@,
                BindSource::Qrcode => "BotGatewayTokenProvider { bind_source: Qrcode, .. }"@,
            }),
    {
        match self.bind_source {
            BindSource::Interactive => "BotGatewayTokenProvider { bind_source: Interactive, .. }".to_string(),
            BindSource::Qrcode => "BotGatewayTokenProvider { bind_source: Qrcode, .. }".to_string(),
        }
    }
}

impl<S: CredentialStore, B> TokenProvider for BotGatewayTokenProvider<S, B> {
    /// A read offers the stored token (unless it is empty), or fails with
    /// the store's error.
    open spec fn reads(&self, r: Result<Option<AccessToken>, AuthError>) -> bool {
        r matches Ok(t) ==> t == offered_token(self.store().ledger())
    }

    /// A plan is the refresh decision on the stored ledger, or the store's error.
    open spec fn plans(&self, stale: Option<Seq<char>>, r: Result<RefreshStep, AuthError>) -> bool {
        r is Ok ==> refresh_decided(self.store().ledger(), stale, self.bot(), r)
    }

    /// A completion with a token returns it and has stored the refreshed
    /// ledger; without one it is the missing-token error and nothing
    /// changes. The endpoint, backend, bind source and bot stay.
    open spec fn completes(
        &self,
        loaded: Option<Credentials>,
        bot: BotCredential,
        response_token: Option<String>,
        body: String,
        r: Result<AccessToken, AuthError>,
        after: Self,
    ) -> bool {
        &&& after.auth_endpoint() == self.auth_endpoint()
        &&& after.backend() == self.backend()
        &&& after.bind_source() == self.bind_source()
        &&& after.bot() == self.bot()
        &&& match response_token {
            Some(t) if t@.len() > 0 => r matches Ok(a) ==> a.0 == t && after.store().ledger() == Some(
                refreshed_ledger(loaded, bot, t),
            ),
            _ => r matches Err(AuthError::Transport(TransportError::Parse { message, endpoint, body: b }))
                && message@ == missing_token_text() && endpoint@ == self.auth_endpoint().url@ && b
                == body && after == *self,
        }
    }

    fn access_token(&self) -> (r: Result<Option<AccessToken>, AuthError>)
        ensures
            r matches Ok(Some(t)) ==> t.0@.len() > 0,
            r matches Ok(t) ==> t == offered_token(self.store().ledger()),
    {
        access_token_from(self.store.load())
    }

    fn refresh_plan(&self, stale_token: Option<&str>) -> (r: Result<RefreshStep, AuthError>)
        ensures
            r matches Ok(RefreshStep::Reuse(t)) ==> match stale_token {
                Some(s) => t.0@ != s@,
                None => true,
            },
            r matches Ok(RefreshStep::Fetch { bot, .. }) ==> (self.bot() matches Some(b) ==> bot == b),
            r is Ok ==> refresh_decided(self.store().ledger(), opt_text(stale_token), self.bot(), r),
    {
        let loaded = match self.store.load() {
            Ok(l) => l,
            Err(e) => {
                return Err(e);
            },
        };
        decide_refresh(loaded, stale_token, &self.bot)
    }

    fn refresh_complete(
        &mut self,
        loaded: Option<Credentials>,
        bot: BotCredential,
        response_token: Option<String>,
        body: String,
    ) -> (r: Result<AccessToken, AuthError>)
        ensures
            r matches Ok(t) ==> response_token == Some(t.0) && t.0@.len() > 0,
            (response_token matches Some(t) && t@.len() > 0) || r is Err,
            match response_token {
                Some(t) if t@.len() > 0 => r matches Ok(a) ==> a.0 == t && final(self).store().ledger()
                    == Some(refreshed_ledger(loaded, bot, t)),
                _ => r matches Err(AuthError::Transport(TransportError::Parse { message, endpoint, body: b }))
                    && message@ == missing_token_text() && endpoint@ == old(self).auth_endpoint().url@
                    && b == body && *final(self) == *old(self),
            },
            final(self).auth_endpoint() == old(self).auth_endpoint(),
            final(self).backend() == old(self).backend(),
            final(self).bind_source() == old(self).bind_source(),
            final(self).bot() == old(self).bot(),
    {
        let url = self.auth_endpoint.url.clone();
        let ghost l0 = loaded;
        let ghost b0 = bot;
        let (creds, token) = match refresh_outcome(loaded, bot, response_token, url.as_str(), body) {
            Ok(v) => v,
            Err(e) => {
                return Err(e);
            },
        };
        assert(creds == refreshed_ledger(l0, b0, token.0));
        match self.store.save(&creds) {
            Ok(()) => Ok(token),
            Err(e) => Err(e),
        }
    }
}

/// Law (a refresh persists its token): the ledger a completed refresh has
/// stored offers exactly the new token to the next read, and keeps a bot
/// (the stored one when there was one).
pub proof fn law_refresh_persists_token(loaded: Option<Credentials>, bot: BotCredential, t: String)
    requires
        t@.len() > 0,
    ensures
        offered_token(Some(refreshed_ledger(loaded, bot, t))) == Some(AccessToken(t)),
        refreshed_ledger(loaded, bot, t).bot is Some,
        (loaded matches Some(l) && l.bot is Some) ==> refreshed_ledger(loaded, bot, t).bot == loaded->0.bot,
        crate::credentials::stored_form(refreshed_ledger(loaded, bot, t)) == Some(refreshed_ledger(loaded, bot, t)),
{
}

/// Law (refresh merging and persistence): a refresh never hands back the
/// token that was just rejected; it calls the gateway only when the stored
/// token is the stale one or absent; and the ledger it writes offers exactly
/// the new token to the next read, keeping the stored bot.
pub proof fn law_refresh_merges_and_persists(
    loaded: Option<Credentials>,
    stale: Option<Seq<char>>,
    bot_override: Option<BotCredential>,
    step: Result<RefreshStep, AuthError>,
    c: Credentials,
    t: AccessToken,
)
    requires
        refresh_decided(loaded, stale, bot_override, step),
        c.token == Some(t.0),
        t.0@.len() > 0,
    ensures
        step matches Ok(RefreshStep::Reuse(r)) ==> Some(r.0@) != stale,
        step matches Ok(RefreshStep::Fetch { .. }) ==> match stored_token(loaded) {
            Some(s) => Some(s@) == stale,
            None => true,
        },
        offered_token(Some(c)) == Some(t),
        crate::credentials::stored_form(c) == Some(c),
{
}

/// Law (which bot a refresh exchanges): when the stored token is absent or
/// is the one just rejected, a refresh exchanges the override bot if there
/// is one, else the bot stored in the ledger; it fails for want of a bot
/// credential exactly when neither exists.
pub proof fn law_refresh_bot_choice(
    loaded: Option<Credentials>,
    stale: Option<Seq<char>>,
    bot_override: Option<BotCredential>,
    step: Result<RefreshStep, AuthError>,
)
    requires
        refresh_decided(loaded, stale, bot_override, step),
        !(loaded matches Some(c) && c.token matches Some(t) && Some(t@) != stale),
    ensures
        bot_override matches Some(b) ==> step == Ok::<RefreshStep, AuthError>(
            RefreshStep::Fetch { bot: bot_override->0, loaded },
        ),
        (bot_override is None && (loaded matches Some(c) && c.bot is Some)) ==> step == Ok::<
            RefreshStep,
            AuthError,
        >(RefreshStep::Fetch { bot: loaded->0.bot->0, loaded }),
        step is Err <==> (bot_override is None && !(loaded matches Some(c) && c.bot is Some)),
{
}

} // verus!
