//! QR-code binding: the session a generation answer yields, and what each
//! answer to a scan-status query means. The requests, the waiting and the
//! rendering stay with the caller, which hands every answer in.

use vstd::prelude::*;
use vstd::string::StringExecFns;

use crate::auth_error::AuthError;
use crate::credentials::BotCredential;
use crate::text::{nat_text, push_u64_text, str_eq};
use crate::transport::TransportError;

verus! {

broadcast use vstd::string::to_string_from_display_ensures_for_str;

/// The `source` every QR-code request names.
pub const QR_SOURCE: &'static str = "wecom_cli_external";

/// Where a QR-code session is requested.
pub const QR_GENERATE_URL: &'static str = "https://work.weixin.qq.com/ai/qc/generate";

/// Where the scan status of a session is queried.
pub const QR_QUERY_URL: &'static str = "https://work.weixin.qq.com/ai/qc/query_result";

/// The page that shows the QR code of a session.
pub const QR_CODE_PAGE: &'static str = "https://work.weixin.qq.com/ai/qc/gen";

/// Pause between two scan-status queries.
pub const QR_POLL_INTERVAL_MS: u64 = 3000;

/// How long a scan is waited for (5 minutes).
pub const QR_POLL_TIMEOUT_MS: u64 = 300000;

/// Platform code of an operating-system name: macOS 1, Windows 2, Linux 3,
/// anything else 0.
pub open spec fn plat_code(os: Seq<char>) -> u8 {
    if os == "macos"@ {
        1
    } else if os == "windows"@ {
        2
    } else if os == "linux"@ {
        3
    } else {
        0
    }
}

/// The platform code sent with a generation request, for the operating
/// system named `os` (as Rust names it: `macos`, `windows`, `linux`, ...).
pub fn get_plat_code(os: &str) -> (r: u8)
    ensures
        r == plat_code(os@),
{
    if str_eq(os, "macos") {
        1
    } else if str_eq(os, "windows") {
        2
    } else if str_eq(os, "linux") {
        3
    } else {
        0
    }
}

pub open spec fn generate_url_text(plat: u8) -> Seq<char> {
    "https://work.weixin.qq.com/ai/qc/generate"@ + "?source="@ + "wecom_cli_external"@ + "&plat="@
        + nat_text(plat as nat)
}

pub open spec fn page_url_text(scode: Seq<char>) -> Seq<char> {
    "https://work.weixin.qq.com/ai/qc/gen"@ + "?source="@ + "wecom_cli_external"@ + "&scode="@
        + scode
}

pub open spec fn query_url_text(scode: Seq<char>) -> Seq<char> {
    "https://work.weixin.qq.com/ai/qc/query_result"@ + "?scode="@ + scode
}

/// Why a generation answer is refused.
pub open spec fn bad_generate_text() -> Seq<char> {
    "获取二维码失败，响应格式异常"@
}

/// Why a successful scan without bot data is refused.
pub open spec fn missing_bot_info_text() -> Seq<char> {
    "扫码成功但未获取到 Bot 信息"@
}

/// `data` of a generation answer.
#[derive(Debug, Clone)]
pub struct GenerateData {
    pub scode: Option<String>,
    pub auth_url: Option<String>,
}

/// A generation answer.
#[derive(Debug, Clone)]
pub struct GenerateResponse {
    pub data: Option<GenerateData>,
}

/// Bot data of a successful scan.
#[derive(Debug, Clone)]
pub struct BotInfoPayload {
    pub botid: Option<String>,
    pub secret: Option<String>,
}

/// `data` of a scan-status answer.
#[derive(Debug, Clone)]
pub struct QueryData {
    pub status: Option<String>,
    pub bot_info: Option<BotInfoPayload>,
}

/// A scan-status answer.
#[derive(Debug, Clone)]
pub struct QueryResponse {
    pub data: Option<QueryData>,
}

/// Which request of the binding failed.
#[derive(Debug, Clone, Copy, PartialEq, Eq, Structural)]
pub enum QrRequest {
    /// Requesting the QR code.
    Generate,
    /// Querying the scan status.
    Query,
}

pub open spec fn request_failed_text(req: QrRequest, undecodable: bool) -> Seq<char> {
    match req {
        QrRequest::Generate => if undecodable {
            "获取二维码失败，响应格式异常"@
        } else {
            "获取二维码失败"@
        },
        QrRequest::Query => if undecodable {
            "查询扫码结果失败，响应格式异常"@
        } else {
            "查询扫码结果失败"@
        },
    }
}

/// The error of a failed request (`undecodable`: the answer arrived but was
/// no JSON of the expected shape): a transport `Network` error at `endpoint`.
pub fn qr_request_failed(req: QrRequest, undecodable: bool, endpoint: &str) -> (e: AuthError)
    ensures
        e matches AuthError::Transport(TransportError::Network { message, endpoint: ep })
            && message@ == request_failed_text(req, undecodable) && ep@ == endpoint@,
{
    let message = match req {
        QrRequest::Generate => if undecodable {
            "获取二维码失败，响应格式异常".to_string()
        } else {
            "获取二维码失败".to_string()
        },
        QrRequest::Query => if undecodable {
            "查询扫码结果失败，响应格式异常".to_string()
        } else {
            "查询扫码结果失败".to_string()
        },
    };
    AuthError::Transport(TransportError::Network { message, endpoint: endpoint.to_string() })
}

/// One QR-code binding session.
#[derive(Debug, Clone)]
pub struct QrSession {
    /// Session code the scan status is queried with.
    pub scode: String,
    /// The URL the QR code carries.
    pub auth_url: String,
    /// The page that shows the QR code.
    pub page_url: String,
}

/// What a scan-status answer means.
#[derive(Debug)]
pub enum QrAnswer {
    /// Not scanned yet: query again after the poll interval.
    Pending,
    /// Scanned: the bound bot.
    Bound(BotCredential),
    /// Scanned, but the answer is unusable.
    Failed(AuthError),
}

/// What a scan-status answer from `url` means: a `success` status with bot
/// id and secret binds that bot, a `success` status without them is a
/// protocol error (body `null`), anything else keeps waiting.
pub open spec fn answer_meaning(url: Seq<char>, resp: QueryResponse, r: QrAnswer) -> bool {
    match resp.data {
        Some(d) if d.status matches Some(st) && st@ == "success"@ => match d.bot_info {
            Some(BotInfoPayload { botid: Some(id), secret: Some(sec) }) => r matches QrAnswer::Bound(
                b,
            ) && b.id == id && b.secret == sec,
            _ => r matches QrAnswer::Failed(
                AuthError::Transport(TransportError::Parse { message, endpoint, body }),
            ) && message@ == missing_bot_info_text() && endpoint@ == url && body@ == "null"@,
        },
        _ => r is Pending,
    }
}

impl QrSession {
    /// The URL that requests a session for platform `plat`.
    pub fn generate_url(plat: u8) -> (r: String)
        ensures
            r@ == generate_url_text(plat),
    {
        let mut s = QR_GENERATE_URL.to_string();
        s.append("?source=");
        s.append(QR_SOURCE);
        s.append("&plat=");
        push_u64_text(&mut s, plat as u64);
        s
    }

    /// The session a generation answer from `url` yields: both the session
    /// code and the QR URL are needed, else the answer is a protocol error
    /// whose body is the answer (`response_json`), or its `data`
    /// (`data_json`) when only a field is missing.
    pub fn from_generate(url: &str, resp: GenerateResponse, response_json: String, data_json: String) -> (r:
        Result<QrSession, AuthError>)
        ensures
            match resp.data {
                None => r matches Err(
                    AuthError::Transport(TransportError::Parse { message, endpoint, body }),
                ) && message@ == bad_generate_text() && endpoint@ == url@ && body == response_json,
                Some(GenerateData { scode: Some(sc), auth_url: Some(au) }) => r matches Ok(s)
                    && s.scode == sc && s.auth_url == au && s.page_url@ == page_url_text(sc@),
                Some(_) => r matches Err(
                    AuthError::Transport(TransportError::Parse { message, endpoint, body }),
                ) && message@ == bad_generate_text() && endpoint@ == url@ && body == data_json,
            },
    {
        match resp.data {
            None => Err(AuthError::Transport(
                TransportError::Parse {
                    message: "获取二维码失败，响应格式异常".to_string(),
                    endpoint: url.to_string(),
                    body: response_json,
                },
            )),
            Some(GenerateData { scode: Some(sc), auth_url: Some(au) }) => {
                let mut page = QR_CODE_PAGE.to_string();
                page.append("?source=");
                page.append(QR_SOURCE);
                page.append("&scode=");
                page.append(sc.as_str());
                Ok(QrSession { scode: sc, auth_url: au, page_url: page })
            },
            Some(_) => Err(AuthError::Transport(
                TransportError::Parse {
                    message: "获取二维码失败，响应格式异常".to_string(),
                    endpoint: url.to_string(),
                    body: data_json,
                },
            )),
        }
    }

    /// The URL the scan status of this session is queried at.
    pub fn query_url(&self) -> (r: String)
        ensures
            r@ == query_url_text(self.scode@),
    {
        let mut s = QR_QUERY_URL.to_string();
        s.append("?scode=");
        s.append(self.scode.as_str());
        s
    }

    /// Whether the wait is over after `elapsed_ms`: the scan then times out.
    pub fn deadline_passed(elapsed_ms: u64) -> (r: bool)
        ensures
            r == (elapsed_ms >= QR_POLL_TIMEOUT_MS),
    {
        elapsed_ms >= QR_POLL_TIMEOUT_MS
    }

    /// What the scan-status answer `resp` from `url` means.
    pub fn answer(url: &str, resp: QueryResponse) -> (r: QrAnswer)
        ensures
            answer_meaning(url@, resp, r),
    {
        let success = match &resp.data {
            Some(d) => match &d.status {
                Some(st) => str_eq(st.as_str(), "success"),
                None => false,
            },
            None => false,
        };
        if !success {
            return QrAnswer::Pending;
        }
        match resp.data {
            Some(d) => match d.bot_info {
                Some(BotInfoPayload { botid: Some(id), secret: Some(sec) }) => QrAnswer::Bound(
                    BotCredential::new(id, sec),
                ),
                _ => QrAnswer::Failed(
                    AuthError::Transport(
                        TransportError::Parse {
                            message: "扫码成功但未获取到 Bot 信息".to_string(),
                            endpoint: url.to_string(),
                            body: "null".to_string(),
                        },
                    ),
                ),
            },
            None => QrAnswer::Pending,
        }
    }
}

} // verus!
