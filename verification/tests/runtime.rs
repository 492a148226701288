use std::time::Duration;

use wecom_cli::auth_error::AuthError;
use wecom_cli::backend::{
    bearer_value, is_token_expired, set_bearer_token, strip_authorization, FailureAction, RequestHeader,
    WecomBackend, TOKEN_EXPIRED_ERRCODE,
};
use wecom_cli::credentials::{BotCredential, CredentialStore, Credentials, MemoryCredentialStore};
use wecom_cli::gateway::{auth_endpoint, Endpoint, RequireAuth};
use wecom_cli::provider::{AccessToken, BotGatewayTokenProvider, DefaultHttpBackend, RefreshStep, TokenProvider};
use wecom_cli::runtime::{settle_initial_token, WecomClient, WecomClientBuilder};
use wecom_cli::transport::{ErrorCause, TransportError};

type Provider = BotGatewayTokenProvider<MemoryCredentialStore, DefaultHttpBackend>;

fn api_error(code: Option<i64>) -> TransportError {
    TransportError::Api { message: "err".into(), action: "test".into(), code, body: "null".into() }
}

#[test]
fn token_expired_errcode_matches() {
    assert!(is_token_expired(&api_error(Some(TOKEN_EXPIRED_ERRCODE))));
}

#[test]
fn other_errors_do_not_match() {
    assert!(!is_token_expired(&api_error(Some(40001))));
    assert!(!is_token_expired(&api_error(None)));
    assert!(!is_token_expired(&TransportError::Other(ErrorCause::Message("x".into()))));
}

#[test]
fn bearer_header_value() {
    assert_eq!(bearer_value("tok-1"), "Bearer tok-1");
}

fn stored_provider() -> Provider {
    BotGatewayTokenProvider::from_store(MemoryCredentialStore::new(Credentials {
        bot: Some(BotCredential::new("bot1".into(), "secret1".into())),
        token: Some("tok-stored".into()),
    }))
}

#[test]
fn initial_token_overrides_provider() {
    let b = WecomClientBuilder::new()
        .base_url("http://localhost".into())
        .token_provider(stored_provider())
        .initial_token("tok-override".into());
    assert_eq!(b.resolve_initial_token().unwrap().as_deref(), Some("tok-override"));
}

#[test]
fn build_reads_initial_token_from_provider() {
    let b = WecomClientBuilder::new().token_provider(stored_provider()).timeout(Duration::from_secs(5));
    assert_eq!(b.resolve_initial_token().unwrap().as_deref(), Some("tok-stored"));
    assert_eq!(b.request_timeout(), Some(Duration::from_secs(5)));
    let backend = b.into_backend((), Some("tok-stored".into()));
    assert_eq!(backend.cached_token().as_deref(), Some("tok-stored"));
    assert!(backend.has_provider());
}

#[test]
fn build_without_provider() {
    let b: WecomClientBuilder<Provider> = WecomClientBuilder::new().base_url("http://localhost".into());
    assert_eq!(b.base_url_text(), "http://localhost");
    assert_eq!(b.resolve_initial_token().unwrap(), None);
    let backend = b.into_backend((), None);
    assert_eq!(backend.cached_token(), None);
    assert!(!backend.has_provider());
}

#[test]
fn builder_defaults_and_headers() {
    let b: WecomClientBuilder<Provider> = WecomClientBuilder::default();
    assert_eq!(b.base_url_text(), "https://qyapi.weixin.qq.com/cli");
    assert_eq!(b.request_timeout(), None);
    let b = b.header("X-A".into(), "1".into()).header("X-B".into(), "2".into()).bin_name("tool".into());
    assert_eq!(
        b.default_headers(),
        &vec![("X-A".to_string(), "1".to_string()), ("X-B".to_string(), "2".to_string())]
    );
    let backend = b.into_backend((), None);
    let gated = Endpoint::from_url("/api".into()).with_require_auth(RequireAuth);
    match backend.authorize(&gated) {
        Err(AuthError::MissingCredentials(m)) => assert!(m.contains("`tool` auth init"), "{m}"),
        other => panic!("unexpected {other:?}"),
    }
}

#[test]
fn provider_errors_become_transport_errors() {
    let r = settle_initial_token(None, Some(Err(AuthError::Crypto("bad".into()))));
    assert!(matches!(r, Err(TransportError::Other(ErrorCause::Auth(_)))));
    let r = settle_initial_token(None, Some(Ok(Some(AccessToken::new("t".into())))));
    assert_eq!(r.unwrap().as_deref(), Some("t"));
    assert_eq!(settle_initial_token(Some("p".into()), None).unwrap().as_deref(), Some("p"));
}

#[test]
fn backend_authorization_rules() {
    let backend: WecomBackend<(), Provider> = WecomBackend::new((), None, Some("tok".into()));
    assert_eq!(backend.authorize(&auth_endpoint("/boot")).unwrap(), None);
    assert_eq!(backend.authorize(&Endpoint::from_url("/x".into())).unwrap().as_deref(), Some("tok"));
}

#[test]
fn client_facade_wraps_inner() {
    let c = WecomClient::from_client(41u32);
    assert_eq!(*c.inner(), 41);
    assert_eq!(c.into_inner(), 41);
}

#[test]
fn refresh_only_on_first_expired_attempt() {
    let with_provider: WecomBackend<(), Provider> = WecomBackend::new((), Some(stored_provider()), Some("tok".into()));
    let expired = api_error(Some(TOKEN_EXPIRED_ERRCODE));
    let sent = Some("tok".to_string());
    assert_eq!(with_provider.on_failure(&expired, &sent, false), FailureAction::Refresh);
    assert_eq!(with_provider.on_failure(&expired, &sent, true), FailureAction::Return);
    assert_eq!(with_provider.on_failure(&expired, &None, false), FailureAction::Return);
    assert_eq!(with_provider.on_failure(&api_error(Some(40001)), &sent, false), FailureAction::Return);
    let without: WecomBackend<(), Provider> = WecomBackend::new((), None, Some("tok".into()));
    assert_eq!(without.on_failure(&expired, &sent, false), FailureAction::Return);
}

#[test]
fn no_provider_token_cached() {
    let backend: WecomBackend<(), Provider> = WecomBackend::new((), None, Some("cached-token".into()));
    assert!(!backend.has_provider());
    assert_eq!(backend.cached_token().as_deref(), Some("cached-token"));
}

#[test]
fn no_bot_credentials_token_cached() {
    let provider = BotGatewayTokenProvider::from_store(MemoryCredentialStore::default());
    assert!(provider.resolve_bot(None).is_none());
    let backend: WecomBackend<(), Provider> = WecomBackend::new((), Some(provider), Some("cached-token".into()));
    assert_eq!(backend.cached_token().as_deref(), Some("cached-token"));
}

#[test]
fn refresh_fetches_and_persists() {
    let store = MemoryCredentialStore::new(Credentials {
        bot: Some(BotCredential::new("bot1".into(), "secret1".into())),
        token: None,
    });
    let mut backend: WecomBackend<(), Provider> =
        WecomBackend::new((), Some(BotGatewayTokenProvider::from_store(store)), Some("tok-old".into()));
    let (bot, loaded) = match backend.begin_refresh(Some("tok-old")).unwrap() {
        RefreshStep::Fetch { bot, loaded } => (bot, loaded),
        other => panic!("expected a fetch, got {other:?}"),
    };
    assert_eq!(bot.id, "bot1");
    let token = backend.complete_refresh(loaded, bot, Some("tok-new".into()), "{}".into()).unwrap();
    assert_eq!(token.as_str(), "tok-new");
    assert_eq!(backend.finish_refresh(Ok(token), api_error(Some(TOKEN_EXPIRED_ERRCODE))).unwrap(), "tok-new");
    assert_eq!(backend.cached_token().as_deref(), Some("tok-new"));
}

#[test]
fn refresh_reuses_concurrently_refreshed_token() {
    let p = BotGatewayTokenProvider::from_store(MemoryCredentialStore::new(Credentials {
        bot: Some(BotCredential::new("bot1".into(), "secret1".into())),
        token: Some("tok-fresh".into()),
    }));
    match p.refresh_plan(Some("tok-stale")).unwrap() {
        RefreshStep::Reuse(t) => assert_eq!(t.as_str(), "tok-fresh"),
        other => panic!("expected reuse, got {other:?}"),
    }
}

#[test]
fn refresh_without_bot_fails() {
    let p = BotGatewayTokenProvider::from_store(MemoryCredentialStore::default());
    assert!(matches!(p.refresh_plan(None), Err(AuthError::MissingCredentials(_))));
}

#[test]
fn refresh_completion_persists_ledger_with_bot_kept() {
    let mut p = BotGatewayTokenProvider::from_store(MemoryCredentialStore::new(Credentials {
        bot: Some(BotCredential::with_create_time("bot1".into(), "s".into(), 7)),
        token: None,
    }));
    let loaded = p.credential_store().load().unwrap();
    let other = BotCredential::with_create_time("other".into(), "x".into(), 1);
    let t = p.refresh_complete(loaded, other, Some("tok-new".into()), "{}".into()).unwrap();
    assert_eq!(t.as_str(), "tok-new");
    let stored = p.credential_store().load().unwrap().unwrap();
    assert_eq!(stored.bot.as_ref().map(|b| b.id.as_str()), Some("bot1"));
    assert_eq!(stored.token.as_deref(), Some("tok-new"));
    assert_eq!(p.access_token().unwrap().map(|t| t.into_inner()).as_deref(), Some("tok-new"));
    let err = p.refresh_complete(None, BotCredential::new("b".into(), "s".into()), Some(String::new()), "{}".into());
    assert!(matches!(err, Err(AuthError::Transport(TransportError::Parse { .. }))));
}

fn header(name: &str, value: &str, sensitive: bool) -> RequestHeader {
    RequestHeader { name: name.into(), value: value.into(), sensitive }
}

#[test]
fn backend_set_bearer_token_marks_sensitive() {
    let mut headers: Vec<RequestHeader> = Vec::new();
    set_bearer_token(&mut headers, "tok-1");
    assert_eq!(headers.len(), 1);
    assert_eq!(headers[0].value, "Bearer tok-1");
    assert!(headers[0].sensitive, "token 头应标记敏感");
}

#[test]
fn tests_set_bearer_token_marks_sensitive() {
    let mut headers: Vec<RequestHeader> = Vec::new();
    set_bearer_token(&mut headers, "tok-1");
    assert_eq!(headers.len(), 1);
    assert_eq!(headers[0].value, "Bearer tok-1");
    assert!(headers[0].sensitive, "token 头应标记敏感");
}

#[test]
fn backend_set_bearer_token_overwrites() {
    let mut headers = vec![header("X-A", "1", false)];
    set_bearer_token(&mut headers, "old");
    set_bearer_token(&mut headers, "new");
    assert_eq!(headers, vec![header("X-A", "1", false), header("authorization", "Bearer new", true)]);
    let mut h2 = vec![header("Authorization", "Bearer x", true)];
    set_bearer_token(&mut h2, "bad\ntoken");
    assert_eq!(h2, vec![header("Authorization", "Bearer x", true)]);
}

#[test]
fn tests_set_bearer_token_overwrites() {
    let mut headers: Vec<RequestHeader> = Vec::new();
    set_bearer_token(&mut headers, "old");
    set_bearer_token(&mut headers, "new");
    assert_eq!(headers, vec![header("authorization", "Bearer new", true)]);
}

#[test]
fn bootstrap_headers_drop_the_token() {
    let headers = vec![header("AUTHORIZATION", "Bearer stale", true), header("X-Trace", "t", false)];
    assert_eq!(strip_authorization(&headers), vec![header("X-Trace", "t", false)]);
}

#[test]
fn backend_debug_does_not_leak_secrets() {
    let backend: WecomBackend<(), Provider> = WecomBackend::new((), None, Some("cached-token".into()));
    let dbg = backend.debug_text("http");
    assert_eq!(dbg, "WecomBackend { backend: \"http\", .. }");
    assert!(!dbg.contains("cached-token"), "token 泄露: {dbg}");
}

#[test]
fn tests_debug_does_not_leak_secrets() {
    let provider =
        BotGatewayTokenProvider::new("bot1".into(), "super-secret".into(), MemoryCredentialStore::default());
    let backend: WecomBackend<(), Provider> = WecomBackend::new((), Some(provider), Some("cached-token".into()));
    let dbg = backend.debug_text("http");
    assert!(!dbg.contains("super-secret"), "secret 泄露: {dbg}");
    assert!(!dbg.contains("cached-token"), "token 泄露: {dbg}");
}

#[test]
fn provider_new_uses_the_bootstrap_endpoint() {
    let p = BotGatewayTokenProvider::new("bot1".into(), "s".into(), MemoryCredentialStore::default());
    let e = p.endpoint();
    assert_eq!(e.url, "https://qyapi.weixin.qq.com/cgi-bin/aibot/cli/get_cli_config");
    assert_eq!(e.envelope, wecom_cli::gateway::Envelope::Flat);
    assert!(e.suppress_auth && !e.require_auth);
    assert_eq!(p.resolve_bot(None).map(|b| b.id), Some("bot1".to_string()));
}
