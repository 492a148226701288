use wecom_cli::credentials::{BotCredential, CredentialStore, Credentials, MemoryCredentialStore};
use wecom_cli::provider::{AccessToken, BindSource, BotGatewayTokenProvider};

fn bot(id: &str) -> BotCredential {
    BotCredential::new(id.to_string(), "secret".into())
}

#[test]
fn memory_store_roundtrip() {
    let mut store = MemoryCredentialStore::new(Credentials::default());
    assert!(store.load().unwrap().is_none());

    let creds = Credentials { bot: Some(bot("bot1")), token: Some("tok-1".into()) };
    store.save(&creds).unwrap();
    let loaded = store.load().unwrap().unwrap();
    assert_eq!(loaded.bot.as_ref().map(|b| b.id.as_str()), Some("bot1"));
    assert_eq!(loaded.token.as_deref(), Some("tok-1"));
}

#[test]
fn memory_store_save_empty_clears() {
    let mut store = MemoryCredentialStore::new(Credentials { bot: Some(bot("bot1")), token: None });
    store.save(&Credentials::default()).unwrap();
    assert!(store.load().unwrap().is_none());
}

#[test]
fn memory_store_clear() {
    let mut store =
        MemoryCredentialStore::new(Credentials { bot: Some(bot("bot1")), token: Some("tok-1".into()) });
    store.clear().unwrap();
    assert!(store.load().unwrap().is_none());
    store.clear().unwrap();
    assert!(store.load().unwrap().is_none());
}

#[test]
fn memory_store_bot_and_token_update_independently() {
    let mut store = MemoryCredentialStore::default();
    let mut c = store.load().unwrap().unwrap_or_default();
    c.bot = Some(bot("bot2"));
    store.save(&c).unwrap();
    let mut c = store.load().unwrap().unwrap_or_default();
    c.token = Some("tok-2".into());
    store.save(&c).unwrap();
    let loaded = store.load().unwrap().unwrap();
    assert_eq!(loaded.bot.as_ref().map(|b| b.id.as_str()), Some("bot2"));
    assert_eq!(loaded.token.as_deref(), Some("tok-2"));
}

#[test]
fn bot_credential_keeps_given_fields() {
    let b = BotCredential::with_create_time("id".into(), "sec".into(), 42);
    assert_eq!(b.id, "id");
    assert_eq!(b.secret, "sec");
    assert_eq!(b.create_time, 42);
    let now = BotCredential::new("a".into(), "b".into());
    assert!(now.create_time > 1_600_000_000);
}

#[test]
fn debug_does_not_leak_secret() {
    let provider =
        BotGatewayTokenProvider::new("bot1".into(), "super-secret".into(), MemoryCredentialStore::default());
    let dbg = provider.debug_text();
    assert!(!dbg.contains("super-secret"), "secret 泄露: {dbg}");
}

#[test]
fn provider_defaults_and_builders() {
    let p = BotGatewayTokenProvider::from_store(MemoryCredentialStore::default());
    assert_eq!(p.get_bind_source(), BindSource::Interactive);
    assert_eq!(p.endpoint().url, "https://qyapi.weixin.qq.com/cgi-bin/aibot/cli/get_cli_config");
    let p = p.with_bind_source(BindSource::Qrcode);
    assert_eq!(p.get_bind_source(), BindSource::Qrcode);
    assert_eq!(p.debug_text(), "BotGatewayTokenProvider { bind_source: Qrcode, .. }");
}

#[test]
fn access_token_wraps_text() {
    let t = AccessToken::new("abc".into());
    assert_eq!(t.as_str(), "abc");
    assert_eq!(t.into_inner(), "abc");
}
