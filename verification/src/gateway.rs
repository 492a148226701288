//! The bot CLI gateway protocol: flat response envelopes, the inner
//! `ApiResponse` check, endpoints and their authorization marks.

use vstd::prelude::*;
use vstd::string::StringExecFns;

use crate::polling::{LongTaskPollInfo, PollMode};
use crate::transport::TransportError;

verus! {

broadcast use vstd::string::to_string_from_display_ensures_for_str;

/// Default URL of the bootstrap endpoint that exchanges bot credentials for a token.
pub const DEFAULT_AUTH_ENDPOINT: &'static str = "https://qyapi.weixin.qq.com/cgi-bin/aibot/cli/get_cli_config";

pub open spec fn default_auth_endpoint_text() -> Seq<char> {
    "https://qyapi.weixin.qq.com/cgi-bin/aibot/cli/get_cli_config"@
}

/// Gate mark: an endpoint that carries it is never called without a token.
#[derive(Debug, Clone, Copy, Default, PartialEq, Eq)]
pub struct RequireAuth;

/// Suppression mark: an endpoint that carries it never receives the token
/// (the bootstrap endpoint that exchanges credentials for a token).
#[derive(Debug, Clone, Copy, Default, PartialEq, Eq)]
pub struct SuppressAuth;

/// How an endpoint's response body is unwrapped.
#[derive(Debug, Clone, Copy, PartialEq, Eq, Structural)]
pub enum Envelope {
    /// The transport's own default envelope.
    Plain,
    /// Gateway envelope: top-level `errcode` check, then `results_json` unwrapped.
    Nested,
    /// Flat envelope: top-level `errcode` check, business data at the top level.
    Flat,
}

/// An endpoint: where a call goes, how its response is unwrapped, and which
/// authorization marks it carries.
#[derive(Debug)]
pub struct Endpoint {
    pub url: String,
    pub envelope: Envelope,
    pub require_auth: bool,
    pub suppress_auth: bool,
}

impl Endpoint {
    /// An endpoint at `url` with the plain envelope and no marks.
    pub fn from_url(url: String) -> (e: Endpoint)
        ensures
            e.url == url,
            e.envelope == Envelope::Plain,
            !e.require_auth,
            !e.suppress_auth,
    {
        Endpoint { url, envelope: Envelope::Plain, require_auth: false, suppress_auth: false }
    }

    /// Sets the response envelope.
    pub fn with_envelope(self, envelope: Envelope) -> (e: Endpoint)
        ensures
            e.url == self.url,
            e.envelope == envelope,
            e.require_auth == self.require_auth,
            e.suppress_auth == self.suppress_auth,
    {
        Endpoint { envelope, ..self }
    }

    /// The same endpoint, gated: it is never called without a token.
    pub fn with_require_auth(self, _mark: RequireAuth) -> (e: Endpoint)
        ensures
            e.url == self.url,
            e.envelope == self.envelope,
            e.require_auth,
            e.suppress_auth == self.suppress_auth,
    {
        Endpoint { require_auth: true, ..self }
    }

    /// Attaches the suppression mark.
    pub fn with_suppress_auth(self, _mark: SuppressAuth) -> (e: Endpoint)
        ensures
            e.url == self.url,
            e.envelope == self.envelope,
            e.require_auth == self.require_auth,
            e.suppress_auth,
    {
        Endpoint { suppress_auth: true, ..self }
    }

    /// The endpoint's full URL.
    pub fn full_url(&self) -> (r: &String)
        ensures
            *r == self.url,
    {
        &self.url
    }
}

/// The bootstrap endpoint at `url`: flat envelope and the suppression mark, so
/// that the request that fetches a token never carries a (stale) token.
pub fn auth_endpoint(url: &str) -> (e: Endpoint)
    ensures
        e.url@ == url@,
        e.envelope == Envelope::Flat,
        !e.require_auth,
        e.suppress_auth,
{
    Endpoint::from_url(url.to_string()).with_envelope(Envelope::Flat).with_suppress_auth(SuppressAuth)
}

/// The top level of a gateway response: `errcode` / `errmsg` / `results_json`
/// (other top-level fields travel separately as JSON text).
#[derive(Debug, Clone)]
pub struct FlatApiResponse {
    pub errcode: Option<i64>,
    pub errmsg: Option<String>,
    pub results_json: Option<String>,
}

/// The error part of an inner response.
#[derive(Debug, Clone)]
pub struct ApiErrorInfo {
    pub code: Option<i64>,
    pub message: Option<String>,
}

/// An inner API response.
#[derive(Debug, Clone)]
pub struct ApiResponse {
    pub result: Option<String>,
    pub error: Option<ApiErrorInfo>,
    pub taskid: Option<String>,
    pub poll_mode: Option<PollMode>,
    pub long_task_poll: Option<LongTaskPollInfo>,
}

/// The message of a business error: the backend's text, or `Unknown error`.
pub open spec fn api_error_message(msg: Option<String>) -> Seq<char> {
    match msg {
        Some(m) => m@,
        None => "Unknown error"@,
    }
}

fn api_error_message_text(msg: &Option<String>) -> (r: String)
    ensures
        r@ == api_error_message(*msg),
{
    match msg {
        Some(m) => m.clone(),
        None => "Unknown error".to_string(),
    }
}

/// Checks the top-level business code of a flat response: a missing `errcode`
/// counts as 0; any other code is an `Api` error carrying the backend's
/// message (or `Unknown error`), the URL and the code. `body` is the response
/// as JSON text.
pub fn validate_flat_api_response(url: &str, data: FlatApiResponse, body: String) -> (r: Result<
    FlatApiResponse,
    TransportError,
>)
    ensures
        ({
            let code = match data.errcode {
                Some(c) => c,
                None => 0,
            };
            if code == 0 {
                r matches Ok(d) && d.errcode == data.errcode && d.errmsg == data.errmsg
                    && d.results_json == data.results_json
            } else {
                r matches Err(TransportError::Api { message, action, code: c, body: b })
                    && message@ == api_error_message(data.errmsg) && action@ == url@
                    && c == Some(code) && b == body
            }
        }),
{
    let code = match data.errcode {
        Some(c) => c,
        None => 0,
    };
    if code != 0 {
        let message = api_error_message_text(&data.errmsg);
        return Err(TransportError::Api { message, action: url.to_string(), code: Some(code), body });
    }
    Ok(data)
}

/// The outcome of the inner error check: an error with a nonzero code is an
/// `Api` error (backend message or `Unknown error`, the URL, the code, the
/// body); anything else passes the response through.
pub open spec fn api_response_checked(
    url: Seq<char>,
    resp: ApiResponse,
    body: String,
    r: Result<ApiResponse, TransportError>,
) -> bool {
    match resp.error {
        Some(ApiErrorInfo { code: Some(c), message: m }) if c != 0 => r matches Err(
            TransportError::Api { message, action, code, body: b },
        ) && message@ == api_error_message(m) && action@ == url && code == Some(c) && b == body,
        _ => r matches Ok(v) && v.result == resp.result && v.taskid == resp.taskid
            && v.poll_mode == resp.poll_mode && v.long_task_poll == resp.long_task_poll,
    }
}

/// Checks the error part of an inner response. `body` is the response as JSON text.
pub fn validate_api_response(url: &str, resp: ApiResponse, body: String) -> (r: Result<
    ApiResponse,
    TransportError,
>)
    ensures
        api_response_checked(url@, resp, body, r),
{
    let failing = match &resp.error {
        Some(ApiErrorInfo { code: Some(c), .. }) => *c != 0,
        _ => false,
    };
    if failing {
        let (c, m) = match resp.error {
            Some(ApiErrorInfo { code: Some(c), message }) => (c, message),
            _ => (0, None),
        };
        let message = api_error_message_text(&m);
        return Err(TransportError::Api { message, action: url.to_string(), code: Some(c), body });
    }
    Ok(resp)
}

/// The gateway envelope: `errcode` check, then `results_json` unwrapped and
/// its inner response checked.
#[derive(Debug, Clone, Copy, Default)]
pub struct NestedRes;

/// The flat envelope: `errcode` check; the business data is the top level.
#[derive(Debug, Clone, Copy, Default)]
pub struct FlatRes;

impl NestedRes {
    pub fn name(&self) -> (r: &'static str)
        ensures
            r@ == "nested"@,
    {
        "nested"
    }

    /// First stage: the top-level check, then the `results_json` text (its
    /// absence is a protocol error). `body` is the flat response as JSON text.
    pub fn unwrap_results(&self, url: &str, flat: FlatApiResponse, body: String) -> (r: Result<
        String,
        TransportError,
    >)
        ensures
            ({
                let code = match flat.errcode {
                    Some(c) => c,
                    None => 0,
                };
                if code != 0 {
                    r matches Err(TransportError::Api { message, action, code: c, body: b })
                        && message@ == api_error_message(flat.errmsg) && action@ == url@
                        && c == Some(code) && b == body
                } else {
                    match flat.results_json {
                        Some(t) => r == Ok::<String, TransportError>(t),
                        None => r matches Err(TransportError::Parse { message, endpoint, body: b })
                            && message@ == "API response missing `results_json` field"@
                            && endpoint@ == url@ && b == body,
                    }
                }
            }),
    {
        let b2 = body.clone();
        let flat = validate_flat_api_response(url, flat, b2)?;
        match flat.results_json {
            Some(t) => Ok(t),
            None => Err(TransportError::Parse {
                message: "API response missing `results_json` field".to_string(),
                endpoint: url.to_string(),
                body,
            }),
        }
    }

    /// The error when `results_json` is not valid JSON; `detail` is the
    /// parser's message and `body` the `results_json` text as a JSON string.
    pub fn results_parse_error(&self, url: &str, detail: &str, body: String) -> (e: TransportError)
        ensures
            e matches TransportError::Parse { message, endpoint, body: b }
                && message@ == "Parse `results_json` JSON failed: "@ + detail@
                && endpoint@ == url@ && b == body,
    {
        let mut message = "Parse `results_json` JSON failed: ".to_string();
        message.append(detail);
        TransportError::Parse { message, endpoint: url.to_string(), body }
    }

    /// Second stage: the inner response's error check.
    pub fn finish(&self, url: &str, inner: ApiResponse, body: String) -> (r: Result<
        ApiResponse,
        TransportError,
    >)
        ensures
            api_response_checked(url@, inner, body, r),
    {
        validate_api_response(url, inner, body)
    }
}

impl FlatRes {
    pub fn name(&self) -> (r: &'static str)
        ensures
            r@ == "flat"@,
    {
        "flat"
    }

    /// Decodes a flat response: the top-level check, then the business data
    /// (`extra`, the other top-level fields as JSON object text) becomes the
    /// result. `body` is the whole response as JSON text.
    pub fn decode(&self, url: &str, flat: FlatApiResponse, extra: String, body: String) -> (r: Result<
        ApiResponse,
        TransportError,
    >)
        ensures
            ({
                let code = match flat.errcode {
                    Some(c) => c,
                    None => 0,
                };
                if code == 0 {
                    r matches Ok(v) && v.result == Some(extra) && v.error is None
                        && v.taskid is None && v.poll_mode is None && v.long_task_poll is None
                } else {
                    r matches Err(TransportError::Api { message, action, code: c, body: b })
                        && message@ == api_error_message(flat.errmsg) && action@ == url@
                        && c == Some(code) && b == body
                }
            }),
    {
        let _flat = validate_flat_api_response(url, flat, body)?;
        Ok(ApiResponse {
            result: Some(extra),
            error: None,
            taskid: None,
            poll_mode: None,
            long_task_poll: None,
        })
    }
}

} // verus!
