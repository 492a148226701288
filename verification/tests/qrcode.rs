use wecom_cli::auth_error::AuthError;
use wecom_cli::qrcode::{
    get_plat_code, qr_request_failed, BotInfoPayload, GenerateData, GenerateResponse, QrAnswer, QrRequest,
    QrSession, QueryData, QueryResponse,
};
use wecom_cli::transport::TransportError;

#[test]
fn plat_codes_per_os() {
    assert_eq!(get_plat_code("macos"), 1);
    assert_eq!(get_plat_code("windows"), 2);
    assert_eq!(get_plat_code("linux"), 3);
    assert_eq!(get_plat_code("freebsd"), 0);
}

#[test]
fn generate_url_names_source_and_platform() {
    assert_eq!(
        QrSession::generate_url(3),
        "https://work.weixin.qq.com/ai/qc/generate?source=wecom_cli_external&plat=3"
    );
}

#[test]
fn generated_session_has_page_and_query_urls() {
    let resp = GenerateResponse {
        data: Some(GenerateData { scode: Some("sc1".into()), auth_url: Some("https://a/u".into()) }),
    };
    let s = QrSession::from_generate("https://g", resp, "{}".into(), "{}".into()).unwrap();
    assert_eq!(s.scode, "sc1");
    assert_eq!(s.auth_url, "https://a/u");
    assert_eq!(s.page_url, "https://work.weixin.qq.com/ai/qc/gen?source=wecom_cli_external&scode=sc1");
    assert_eq!(s.query_url(), "https://work.weixin.qq.com/ai/qc/query_result?scode=sc1");
}

#[test]
fn generate_answer_without_fields_is_protocol_error() {
    let err = QrSession::from_generate("https://g", GenerateResponse { data: None }, "{\"data\":null}".into(), "x".into())
        .unwrap_err();
    match err {
        AuthError::Transport(TransportError::Parse { message, endpoint, body }) => {
            assert_eq!(message, "获取二维码失败，响应格式异常");
            assert_eq!(endpoint, "https://g");
            assert_eq!(body, "{\"data\":null}");
        }
        other => panic!("unexpected {other:?}"),
    }
    let half = GenerateResponse { data: Some(GenerateData { scode: Some("s".into()), auth_url: None }) };
    match QrSession::from_generate("https://g", half, "r".into(), "{\"scode\":\"s\"}".into()).unwrap_err() {
        AuthError::Transport(TransportError::Parse { body, .. }) => assert_eq!(body, "{\"scode\":\"s\"}"),
        other => panic!("unexpected {other:?}"),
    }
}

fn answer(status: Option<&str>, bot: Option<(Option<&str>, Option<&str>)>) -> QueryResponse {
    QueryResponse {
        data: Some(QueryData {
            status: status.map(str::to_string),
            bot_info: bot.map(|(i, s)| BotInfoPayload { botid: i.map(str::to_string), secret: s.map(str::to_string) }),
        }),
    }
}

#[test]
fn scan_answers() {
    assert!(matches!(QrSession::answer("u", QueryResponse { data: None }), QrAnswer::Pending));
    assert!(matches!(QrSession::answer("u", answer(Some("waiting"), None)), QrAnswer::Pending));
    match QrSession::answer("u", answer(Some("success"), Some((Some("b1"), Some("s1"))))) {
        QrAnswer::Bound(bot) => {
            assert_eq!(bot.id, "b1");
            assert_eq!(bot.secret, "s1");
        }
        other => panic!("unexpected {other:?}"),
    }
    match QrSession::answer("u", answer(Some("success"), Some((Some("b1"), None)))) {
        QrAnswer::Failed(AuthError::Transport(TransportError::Parse { message, endpoint, body })) => {
            assert_eq!(message, "扫码成功但未获取到 Bot 信息");
            assert_eq!(endpoint, "u");
            assert_eq!(body, "null");
        }
        other => panic!("unexpected {other:?}"),
    }
}

#[test]
fn scan_deadline_is_five_minutes() {
    assert!(!QrSession::deadline_passed(299_999));
    assert!(QrSession::deadline_passed(300_000));
}

#[test]
fn request_failures_are_network_errors() {
    match qr_request_failed(QrRequest::Query, true, "https://q") {
        AuthError::Transport(TransportError::Network { message, endpoint }) => {
            assert_eq!(message, "查询扫码结果失败，响应格式异常");
            assert_eq!(endpoint, "https://q");
        }
        other => panic!("unexpected {other:?}"),
    }
    match qr_request_failed(QrRequest::Generate, false, "https://g") {
        AuthError::Transport(TransportError::Network { message, .. }) => assert_eq!(message, "获取二维码失败"),
        other => panic!("unexpected {other:?}"),
    }
}
