use std::path::Path;

use wecom_cli::auth_error::AuthError;
use wecom_cli::cli_auth::{
    chosen_mode, init_ledger, init_route, qrcode_output_parent, resolve_access_token, resolve_auth_endpoint,
    resolve_bind_mode, show_lines, source_for, validate_qrcode_output_path, BindMode, InitRoute,
};
use wecom_cli::cli_error::Error;
use wecom_cli::credentials::{BotCredential, Credentials};
use wecom_cli::gateway::{auth_endpoint, Envelope};
use wecom_cli::provider::BindSource;
use wecom_cli::transport::TransportError;
use wecom_cli::wecom_error::WecomError;

#[test]
fn noninteractive_always_skips_tty_check() {
    assert_eq!(resolve_bind_mode(true, false, false).unwrap(), BindMode::Qrcode);
    assert_eq!(resolve_bind_mode(true, false, true).unwrap(), BindMode::Qrcode);
}

#[test]
fn manual_requires_tty() {
    assert_eq!(resolve_bind_mode(false, true, true).unwrap(), BindMode::Manual);
}

#[test]
fn manual_non_tty_bails_with_hint() {
    let err = resolve_bind_mode(false, true, false).unwrap_err();
    let msg = err.display_text();
    assert!(msg.contains("--noninteractive"), "got: {msg}");
    assert!(msg.contains("手动输入需要终端"), "expected manual-specific hint, got: {msg}");
}

#[test]
fn default_non_tty_falls_back_to_qrcode() {
    assert_eq!(resolve_bind_mode(false, false, false).unwrap(), BindMode::Qrcode);
}

#[test]
fn default_tty_selects_interactively() {
    assert_eq!(resolve_bind_mode(false, false, true).unwrap(), BindMode::Select);
}

#[test]
fn auth_endpoint_defaults_to_product() {
    let e = resolve_auth_endpoint(Some("https://config.example.com/auth"));
    assert_eq!(e.full_url(), "https://qyapi.weixin.qq.com/cgi-bin/aibot/cli/get_cli_config");
    assert_eq!(e.envelope, Envelope::Flat);
    assert!(e.suppress_auth);
}

#[test]
fn auth_endpoint_none_falls_back_to_default() {
    assert_eq!(
        resolve_auth_endpoint(None).full_url(),
        "https://qyapi.weixin.qq.com/cgi-bin/aibot/cli/get_cli_config"
    );
}

#[test]
fn direct_route_needs_both_values_and_no_terminal() {
    match init_route(Some("b".into()), Some("s".into()), false, false, false).unwrap() {
        InitRoute::Direct(bot) => {
            assert_eq!(bot.id, "b");
            assert_eq!(bot.secret, "s");
        }
        other => panic!("expected Direct, got {other:?}"),
    }
    assert!(matches!(
        init_route(Some("b".into()), Some("s".into()), false, false, true).unwrap(),
        InitRoute::Bind(BindMode::Select)
    ));
    assert!(matches!(
        init_route(Some("b".into()), None, false, false, false).unwrap(),
        InitRoute::Bind(BindMode::Qrcode)
    ));
    assert!(init_route(None, None, false, true, false).is_err());
}

#[test]
fn interactive_choice_and_bind_source() {
    assert_eq!(chosen_mode("qrcode"), BindMode::Qrcode);
    assert_eq!(chosen_mode("manual"), BindMode::Manual);
    assert_eq!(source_for(BindMode::Qrcode), BindSource::Qrcode);
    assert_eq!(source_for(BindMode::Manual), BindSource::Interactive);
}

#[test]
fn init_ledger_writes_bot_and_token() {
    let ep = auth_endpoint("https://example.com/auth");
    let bot = BotCredential::with_create_time("bot1".into(), "sec".into(), 1);
    let c = init_ledger(&ep, Some("tok".into()), "{}".into(), bot).unwrap();
    assert_eq!(c.bot.as_ref().map(|b| b.id.as_str()), Some("bot1"));
    assert_eq!(c.token.as_deref(), Some("tok"));
}

#[test]
fn init_ledger_refuses_missing_or_empty_token() {
    let ep = auth_endpoint("https://example.com/auth");
    for token in [None, Some(String::new())] {
        let bot = BotCredential::with_create_time("bot1".into(), "sec".into(), 1);
        let err = init_ledger(&ep, token, "{\"errcode\":0}".into(), bot).unwrap_err();
        match err {
            Error::Wecom(WecomError::Transport(TransportError::Parse { message, endpoint, body })) => {
                assert_eq!(message, "鉴权成功但未获取到访问令牌，请重试或检查账号状态");
                assert_eq!(endpoint, "https://example.com/auth");
                assert_eq!(body, "{\"errcode\":0}");
            }
            other => panic!("expected Parse, got {other:?}"),
        }
    }
}

#[test]
fn show_lines_report_status_and_bot() {
    let with_bot = || {
        Ok(Some(Credentials {
            bot: Some(BotCredential::with_create_time("bot9".into(), "s".into(), 1)),
            token: None,
        }))
    };
    assert_eq!(show_lines(true, with_bot()), vec!["authorized".to_string()]);
    assert_eq!(
        show_lines(false, with_bot()),
        vec!["Status: authorized".to_string(), "Bot ID: bot9".to_string()]
    );
    assert_eq!(show_lines(true, Ok(None)), vec!["unauthorized".to_string()]);
    assert_eq!(
        show_lines(false, Err(AuthError::Storage("x".into()))),
        vec!["Status: unauthorized".to_string()]
    );
}

#[test]
fn access_token_override_wins_unless_empty() {
    let stored = || Ok(Some(Credentials { bot: None, token: Some("stored".into()) }));
    assert_eq!(resolve_access_token(Some("env-tok".into()), stored()).as_deref(), Some("env-tok"));
    assert_eq!(resolve_access_token(Some(String::new()), stored()).as_deref(), Some("stored"));
    assert_eq!(resolve_access_token(Some(String::new()), Ok(None)), None);
}

/// What the caller learns from the file system before checking an output path.
fn check(path: &Path, base: &Path) -> Result<(), Error> {
    let joined = base.join(path);
    let mut existing = joined.clone();
    let mut rest = Vec::new();
    while !existing.exists() {
        match (existing.file_name(), existing.parent()) {
            (Some(name), Some(parent)) => {
                rest.push(name.to_os_string());
                existing = parent.to_path_buf();
            }
            _ => break,
        }
    }
    let mut resolved = existing.canonicalize().unwrap_or(existing);
    for name in rest.iter().rev() {
        resolved.push(name);
    }
    let base_c = base.canonicalize().unwrap();
    let p = path.to_str().unwrap();
    let parent_is_dir = match qrcode_output_parent(p) {
        Some(q) => base.join(q).is_dir(),
        None => true,
    };
    validate_qrcode_output_path(
        p,
        base_c.to_str().unwrap(),
        resolved.to_str().unwrap(),
        parent_is_dir,
        joined.is_dir(),
    )
}

#[test]
fn validate_rejects_missing_parent_dir() {
    let dir = tempfile::tempdir().unwrap();
    let err = check(Path::new("no_such_dir/qr.png"), dir.path()).unwrap_err();
    let msg = err.display_text();
    assert!(msg.contains("输出目录不存在"), "got: {msg}");
    assert!(msg.contains("no_such_dir"), "got: {msg}");
}

#[test]
fn validate_accepts_bare_filename() {
    let dir = tempfile::tempdir().unwrap();
    check(Path::new("qr.png"), dir.path()).unwrap();
}

#[test]
fn validate_rejects_path_is_dir() {
    let dir = tempfile::tempdir().unwrap();
    let sub = tempfile::Builder::new().tempdir_in(dir.path()).unwrap();
    let name = sub.path().file_name().unwrap().to_owned();
    let err = check(Path::new(&name), dir.path()).unwrap_err();
    assert!(err.display_text().contains("输出路径是目录"), "got: {err:?}");
}

#[test]
fn validate_accepts_existing_parent_dir() {
    let dir = tempfile::tempdir().unwrap();
    let sub = tempfile::Builder::new().tempdir_in(dir.path()).unwrap();
    let name = sub.path().file_name().unwrap().to_owned();
    check(&Path::new(&name).join("qr.png"), dir.path()).unwrap();
}

#[test]
fn validate_rejects_absolute_path_outside_base() {
    let dir = tempfile::tempdir().unwrap();
    let outside = tempfile::tempdir().unwrap();
    let abs = outside.path().join("qr.png");
    let err = check(&abs, dir.path()).unwrap_err();
    let msg = err.display_text();
    assert!(msg.contains("仅支持当前目录下的路径"), "got: {msg}");
}

#[test]
fn validate_accepts_absolute_path_inside_base() {
    let dir = tempfile::tempdir().unwrap();
    let abs = dir.path().join("qr.png");
    check(&abs, dir.path()).unwrap();
}

#[test]
fn validate_rejects_dotdot_path() {
    let dir = tempfile::tempdir().unwrap();
    let err = check(Path::new("../qr.png"), dir.path()).unwrap_err();
    let msg = err.display_text();
    assert!(msg.contains("仅支持当前目录下的路径"), "got: {msg}");
}

#[test]
fn validate_rejects_tilde_path() {
    let dir = tempfile::tempdir().unwrap();
    let err = check(Path::new("~/Downloads/qr.png"), dir.path()).unwrap_err();
    let msg = err.display_text();
    assert!(msg.contains("输出目录不存在"), "got: {msg}");
    assert!(msg.contains("~/Downloads"), "got: {msg}");
}

#[test]
fn validate_decides_on_given_facts() {
    assert!(validate_qrcode_output_path("qr.png", "/w", "/w/qr.png", true, false).is_ok());
    let e = validate_qrcode_output_path("a/qr.png", "/w", "/w/a/qr.png", false, false).unwrap_err();
    assert_eq!(e.message(), "输出目录不存在: a");
    let e = validate_qrcode_output_path("d", "/w", "/w/d", true, true).unwrap_err();
    assert_eq!(e.message(), "输出路径是目录: d");
    let e = validate_qrcode_output_path("x", "/w", "/elsewhere/x", true, false).unwrap_err();
    assert_eq!(e.message(), "仅支持当前目录下的路径（如 qr.png 或 sub/qr.png）");
}
