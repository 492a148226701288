use wecom_cli::auth_error::{AuthError, E_AUTH_MISSING, E_CRYPTO, E_OTHER, E_QR_TIMEOUT, E_STORAGE};
use wecom_cli::cli_error::{self, Error};
use wecom_cli::transport::{ErrorCause, TransportError};
use wecom_cli::wecom_error::WecomError;

fn api(code: Option<i64>) -> TransportError {
    TransportError::Api {
        message: "expired".to_string(),
        action: "/x".to_string(),
        code,
        body: "null".to_string(),
    }
}

#[test]
fn code_maps_each_variant() {
    assert_eq!(AuthError::MissingCredentials("x".into()).code(), E_AUTH_MISSING);
    assert_eq!(AuthError::QrTimeout.code(), E_QR_TIMEOUT);
    assert_eq!(AuthError::Crypto("x".into()).code(), E_CRYPTO);
    assert_eq!(AuthError::Storage("x".into()).code(), E_STORAGE);
    assert_eq!(AuthError::Other("x".into()).code(), E_OTHER);
}

#[test]
fn code_transport_delegates() {
    let e = AuthError::Transport(TransportError::Api {
        message: "invalid".into(),
        action: "/x".into(),
        code: Some(853000),
        body: "null".into(),
    });
    assert_eq!(e.code(), 853000);
}

#[test]
fn transport_error_roundtrip() {
    let wrapped = AuthError::from(api(Some(853004)));
    assert!(matches!(wrapped, AuthError::Transport(_)));
    let back: TransportError = wrapped.into();
    assert!(matches!(back, TransportError::Api { code: Some(853004), .. }));
}

#[test]
fn local_variant_boxes_into_transport_other() {
    let e: TransportError = AuthError::MissingCredentials("need login".into()).into();
    match e {
        TransportError::Other(ErrorCause::Auth(boxed)) => {
            assert!(
                matches!(*boxed, AuthError::MissingCredentials(_)),
                "expected AuthError::MissingCredentials"
            );
        }
        other => panic!("expected Other, got {other:?}"),
    }
}

#[test]
fn auth_display_names_type_message_and_code() {
    let s = AuthError::Storage("disk full".into()).display_text();
    assert_eq!(s, "StorageError: disk full [code=893304]");
    assert_eq!(AuthError::QrTimeout.message(), "扫码超时（5 分钟），请重试");
}

#[test]
fn error_code_maps_each_variant() {
    assert_eq!(Error::Auth("x".into()).code(), cli_error::E_AUTH);
    assert_eq!(Error::QrTimeout.code(), cli_error::E_QR_TIMEOUT);
    assert_eq!(Error::Crypto("x".into()).code(), cli_error::E_CRYPTO);
    assert_eq!(Error::Other("x".into()).code(), cli_error::E_OTHER);
}

#[test]
fn code_wecom_delegates() {
    let e = Error::Wecom(WecomError::Validation("x".into()));
    assert_eq!(e.code(), 893001);
}

#[test]
fn message_qr_timeout() {
    assert!(Error::QrTimeout.message().contains("扫码超时"));
}

#[test]
fn exit_code_delegates_wecom() {
    let e = Error::Wecom(WecomError::CliOutput { code: 2, message: "usage".into() });
    assert_eq!(e.exit_code(), 2);
    assert_eq!(Error::QrTimeout.exit_code(), 1);
}

#[test]
fn display_crypto() {
    let e = Error::Crypto("bad ciphertext".into());
    let s = e.display_text();
    assert!(s.contains("CryptoError"));
    assert!(s.contains("bad ciphertext"));
    assert!(s.contains("code=893203"));
}

#[test]
fn display_wecom_delegates() {
    let e = Error::Wecom(WecomError::Config("bad cfg".into()));
    let s = e.display_text();
    assert!(s.contains("ConfigError"));
    assert!(s.contains("bad cfg"));
}

#[test]
fn protocol_constructs_transport_parse() {
    let e = Error::protocol("missing token".into(), "/auth".into(), "null".into());
    assert!(matches!(e, Error::Wecom(WecomError::Transport(TransportError::Parse { .. }))));
    assert_eq!(e.code(), 893103);
    assert_eq!(e.message(), "missing token");
}

#[test]
fn from_wecom_wraps_uniformly() {
    let e = Error::from(WecomError::Other(ErrorCause::Message("plain".into())));
    assert!(matches!(e, Error::Wecom(WecomError::Other(_))));
    assert_eq!(e.code(), cli_error::E_OTHER);
}

#[test]
fn from_transport_error_nests() {
    let e = Error::from(TransportError::Http {
        message: "not found".into(),
        endpoint: "/x".into(),
        status: 404,
    });
    assert!(matches!(e, Error::Wecom(WecomError::Transport(TransportError::Http { .. }))));
    assert_eq!(e.code(), 893102);
}

#[test]
fn from_io_error_nests_wecom_io() {
    let e = Error::from(std::io::Error::new(std::io::ErrorKind::NotFound, "no such file"));
    assert!(matches!(e, Error::Wecom(WecomError::Io { .. })));
    assert_eq!(e.code(), 893003);
}

#[test]
fn into_wecom_unwraps_wecom_variant() {
    let e: WecomError = Error::Wecom(WecomError::Validation("x".into())).into();
    assert!(matches!(e, WecomError::Validation(_)));
}

#[test]
fn into_wecom_boxes_cli_variant() {
    let e: WecomError = Error::Auth("need login".into()).into();
    match e {
        WecomError::Other(ErrorCause::Cli(boxed)) => {
            assert!(matches!(*boxed, Error::Auth(_)));
        }
        other => panic!("expected Other, got {other:?}"),
    }
}

#[test]
fn into_transport_unwraps_transport_variant() {
    let e: TransportError = Error::Wecom(WecomError::Transport(api(Some(853004)))).into();
    assert!(matches!(e, TransportError::Api { code: Some(853004), .. }));
}

#[test]
fn into_transport_boxes_cli_variant() {
    let e: TransportError = Error::Crypto("x".into()).into();
    match e {
        TransportError::Other(ErrorCause::Cli(boxed)) => {
            assert!(matches!(*boxed, Error::Crypto(_)));
        }
        other => panic!("expected Other, got {other:?}"),
    }
}

#[test]
fn boxed_cli_error_keeps_display_message() {
    let wecom_err: WecomError = Error::Auth("need login".into()).into();
    let back = Error::from(wecom_err);
    assert!(matches!(back, Error::Wecom(WecomError::Other(_))));
    assert_eq!(back.code(), cli_error::E_OTHER);
    let msg = back.message();
    assert!(msg.contains("AuthError"));
    assert!(msg.contains("need login"));
}

#[test]
fn source_chain() {
    let e = Error::Wecom(WecomError::Validation("x".into()));
    assert!(e.has_source());
    let e = Error::Other("io".into());
    assert!(e.has_source());
    assert!(!Error::QrTimeout.has_source());
}

#[test]
fn auth_errors_map_onto_cli_variants() {
    assert!(matches!(Error::from(AuthError::MissingCredentials("m".into())), Error::Auth(_)));
    assert!(matches!(Error::from(AuthError::QrTimeout), Error::QrTimeout));
    assert!(matches!(Error::from(AuthError::Crypto("c".into())), Error::Crypto(_)));
    assert!(matches!(Error::from(AuthError::Storage("s".into())), Error::Other(_)));
    let e = Error::from(AuthError::Transport(api(Some(40001))));
    assert_eq!(e.code(), 40001);
}

#[test]
fn json_type_names_local_variants() {
    assert_eq!(Error::Auth("x".into()).json_type(), Some("AuthError"));
    assert_eq!(Error::QrTimeout.json_type(), Some("QrTimeout"));
    assert_eq!(Error::Crypto("x".into()).json_type(), Some("CryptoError"));
    assert_eq!(Error::Other("x".into()).json_type(), Some("UnknownError"));
    assert_eq!(Error::Wecom(WecomError::Validation("x".into())).json_type(), None);
}

#[test]
fn transport_display_and_codes() {
    let e = TransportError::Network { message: "down".into(), endpoint: "/x".into() };
    assert_eq!(e.code(), 893101);
    let w = WecomError::Io { message: "denied".into() };
    assert_eq!(w.display_text(), "IoError: denied [code=893003]");
    assert_eq!(WecomError::Validation("v".into()).exit_code(), 1);
}

#[test]
fn wecom_transport_api_code_delegates() {
    let body: serde_json::Value =
        serde_json::from_str(r#"{"errcode": 40001, "errmsg": "invalid credential"}"#).unwrap();
    let e = Error::Wecom(WecomError::Transport(TransportError::Api {
        message: "invalid credential".into(),
        action: "/x".into(),
        code: Some(40001),
        body: body.to_string(),
    }));
    assert_eq!(e.code(), 40001);
    let json: serde_json::Value = serde_json::from_str(e.api_body().unwrap()).unwrap();
    assert_eq!(json, body);
    assert!(Error::QrTimeout.api_body().is_none());
}
