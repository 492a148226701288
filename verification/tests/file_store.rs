use wecom_cli::auth_error::AuthError;
use wecom_cli::credentials::{BotCredential, Credentials};
use wecom_cli::crypto::{decrypt, encode_key};
use wecom_cli::file_store::{EncryptedFileCredentialStore, LedgerFile, SavePlan};

fn store() -> EncryptedFileCredentialStore {
    EncryptedFileCredentialStore::new("/cfg".to_string()).with_keyring(false)
}

fn creds() -> Credentials {
    Credentials {
        bot: Some(BotCredential::with_create_time("bot1".into(), "secret".into(), 1)),
        token: Some("tok-1".into()),
    }
}

#[test]
fn paths_live_in_the_directory() {
    let s = EncryptedFileCredentialStore::new("/cfg".to_string());
    assert!(s.keyring_enabled());
    assert_eq!(s.dir(), "/cfg");
    assert_eq!(s.credentials_path(), "/cfg/credentials.enc");
    assert_eq!(s.encryption_key_path(), "/cfg/.encryption_key");
    let [bot, token] = s.legacy_paths();
    assert_eq!(bot, "/cfg/bot.enc");
    assert_eq!(token, "/cfg/token.enc");
    assert!(!s.with_keyring(false).keyring_enabled());
}

#[test]
fn empty_ledger_plans_a_clear() {
    let plan = store().save_plan(&Credentials::default(), b"{}", None, None);
    assert!(matches!(plan, SavePlan::Clear));
}

#[test]
fn save_then_load_roundtrip() {
    let s = store();
    let key = s.generate_key();
    let key_text = encode_key(&key);
    let plan = s.save_plan(&creds(), b"{\"token\":\"tok-1\"}", Some(key_text.clone()), None);
    let sealed = match plan {
        SavePlan::Write { key: k, key_text: t, sealed } => {
            assert_eq!(k, key);
            assert_eq!(t, key_text);
            sealed.unwrap()
        }
        SavePlan::Clear => panic!("expected a write"),
    };
    let found = s.load_step(LedgerFile::Present(sealed), Some(format!("{key_text}\n")), None).unwrap();
    assert_eq!(found, vec![b"{\"token\":\"tok-1\"}".to_vec()]);
}

#[test]
fn save_without_keys_makes_a_fresh_one() {
    let s = store();
    match s.save_plan(&creds(), b"x", None, None) {
        SavePlan::Write { key, key_text, sealed } => {
            assert_eq!(key_text, encode_key(&key));
            assert_eq!(decrypt(&key, &sealed.unwrap()).unwrap(), b"x");
        }
        SavePlan::Clear => panic!("expected a write"),
    }
}

#[test]
fn load_missing_is_no_ledger() {
    assert!(store().load_step(LedgerFile::Missing, None, None).unwrap().is_empty());
}

#[test]
fn load_unreadable_is_storage_error() {
    match store().load_step(LedgerFile::Unreadable("denied".into()), None, None) {
        Err(AuthError::Storage(m)) => assert_eq!(m, "读取凭据文件 /cfg/credentials.enc 失败: denied"),
        other => panic!("unexpected {other:?}"),
    }
}

#[test]
fn load_corrupted_or_wrong_key_finds_nothing() {
    let s = store();
    let key_text = encode_key(&[9u8; 32]);
    let garbage = s.load_step(LedgerFile::Present(b"garbage".to_vec()), Some(key_text.clone()), None).unwrap();
    assert!(garbage.is_empty());
    let other = wecom_cli::crypto::encrypt(&[8u8; 32], b"ledger").unwrap();
    assert!(s.load_step(LedgerFile::Present(other), Some(key_text), None).unwrap().is_empty());
}

#[test]
fn keyring_key_counts_only_when_enabled() {
    let ring = [5u8; 32];
    let sealed = wecom_cli::crypto::encrypt(&ring, b"r").unwrap();
    let ring_text = Some(encode_key(&ring));
    let on = EncryptedFileCredentialStore::new("/cfg".to_string());
    assert_eq!(on.load_step(LedgerFile::Present(sealed.clone()), None, ring_text.clone()).unwrap(), vec![b"r".to_vec()]);
    assert!(store().load_step(LedgerFile::Present(sealed), None, ring_text).unwrap().is_empty());
}

#[test]
fn remove_failure_names_the_file() {
    match store().remove_failed("busy") {
        AuthError::Storage(m) => assert_eq!(m, "删除凭据文件 /cfg/credentials.enc 失败: busy"),
        other => panic!("unexpected {other:?}"),
    }
}
