//! The `auth` command: the route `auth init` takes, the ledger an accepted
//! binding writes, what `auth show` prints, and where a QR-code image may go.

use vstd::prelude::*;
use vstd::string::StringExecFns;

use crate::auth_error::AuthError;
use crate::cli_error::Error;
use crate::credentials::{BotCredential, Credentials};
use crate::gateway::{auth_endpoint, default_auth_endpoint_text, Endpoint, Envelope, DEFAULT_AUTH_ENDPOINT};
use crate::paths::{is_within, lies_within, parent_of, parent_text};
use crate::provider::BindSource;
use crate::text::str_eq;
use crate::transport::TransportError;
use crate::wecom_error::WecomError;

verus! {

broadcast use vstd::string::to_string_from_display_ensures_for_str;

/// The bootstrap endpoint `auth init` binds against. The argument is the
/// configuration's `auth_endpoint`, which only builds with custom endpoints
/// honour; this one always uses the product endpoint.
pub fn resolve_auth_endpoint(_configured: Option<&str>) -> (e: Endpoint)
    ensures
        e.url@ == default_auth_endpoint_text(),
        e.envelope == Envelope::Flat,
        e.suppress_auth,
        !e.require_auth,
{
    auth_endpoint(DEFAULT_AUTH_ENDPOINT)
}

/// How `auth init` obtains the bot: QR code, manual input, or an interactive choice.
#[derive(Debug, Clone, Copy, PartialEq, Eq, Structural)]
pub enum BindMode {
    Qrcode,
    Manual,
    Select,
}

pub open spec fn manual_needs_tty_text() -> Seq<char> {
    "手动输入需要终端，非交互环境请使用 --noninteractive 直接扫码接入"@
}

/// `--noninteractive` always scans; `--manual` needs a terminal; by default
/// a terminal chooses interactively and anything else scans. `None`: refused.
pub open spec fn bind_mode_for(noninteractive: bool, manual: bool, is_tty: bool) -> Option<BindMode> {
    if noninteractive {
        Some(BindMode::Qrcode)
    } else if manual {
        if is_tty {
            Some(BindMode::Manual)
        } else {
            None
        }
    } else if is_tty {
        Some(BindMode::Select)
    } else {
        Some(BindMode::Qrcode)
    }
}

/// The bind mode for the flags and whether stderr is a terminal; manual input
/// without a terminal is a validation error that points to `--noninteractive`.
pub fn resolve_bind_mode(noninteractive: bool, manual: bool, is_tty: bool) -> (r: Result<BindMode, Error>)
    ensures
        match bind_mode_for(noninteractive, manual, is_tty) {
            Some(m) => r matches Ok(x) && x == m,
            None => r matches Err(Error::Wecom(WecomError::Validation(t)))
                && t@ == manual_needs_tty_text(),
        },
{
    if noninteractive {
        return Ok(BindMode::Qrcode);
    }
    if manual {
        if is_tty {
            return Ok(BindMode::Manual);
        }
        return Err(Error::Wecom(
            WecomError::Validation(
                "手动输入需要终端，非交互环境请使用 --noninteractive 直接扫码接入".to_string(),
            ),
        ));
    }
    if is_tty {
        return Ok(BindMode::Select);
    }
    Ok(BindMode::Qrcode)
}

/// The route of `auth init`.
#[derive(Debug)]
pub enum InitRoute {
    /// Bot id and secret were given and no terminal is attached: bind them directly.
    Direct(BotCredential),
    /// Obtain the bot in this mode first.
    Bind(BindMode),
}

/// The route of `auth init`: given bot id and secret bind directly when
/// stderr is no terminal; otherwise the bind mode decides (the given bot is
/// then not used).
pub fn init_route(
    bot_id: Option<String>,
    secret: Option<String>,
    noninteractive: bool,
    manual: bool,
    stderr_is_tty: bool,
) -> (r: Result<InitRoute, Error>)
    ensures
        match (bot_id, secret) {
            (Some(id), Some(sec)) if !stderr_is_tty => r matches Ok(InitRoute::Direct(b)) && b.id
                == id && b.secret == sec,
            _ => match bind_mode_for(noninteractive, manual, stderr_is_tty) {
                Some(m) => r matches Ok(InitRoute::Bind(x)) && x == m,
                None => r matches Err(Error::Wecom(WecomError::Validation(t)))
                    && t@ == manual_needs_tty_text(),
            },
        },
{
    if !stderr_is_tty {
        if let (Some(id), Some(sec)) = (bot_id, secret) {
            return Ok(InitRoute::Direct(BotCredential::new(id, sec)));
        }
    }
    match resolve_bind_mode(noninteractive, manual, stderr_is_tty) {
        Ok(m) => Ok(InitRoute::Bind(m)),
        Err(e) => Err(e),
    }
}

/// The mode the interactive choice `choice` names: `qrcode`, else manual input.
pub fn chosen_mode(choice: &str) -> (m: BindMode)
    ensures
        m == (if choice@ == "qrcode"@ {
            BindMode::Qrcode
        } else {
            BindMode::Manual
        }),
{
    if str_eq(choice, "qrcode") {
        BindMode::Qrcode
    } else {
        BindMode::Manual
    }
}

/// Where a bot obtained in mode `m` came from: a scan, or manual input.
pub fn source_for(m: BindMode) -> (s: BindSource)
    ensures
        s == (if m == BindMode::Qrcode {
            BindSource::Qrcode
        } else {
            BindSource::Interactive
        }),
{
    match m {
        BindMode::Qrcode => BindSource::Qrcode,
        _ => BindSource::Interactive,
    }
}

/// A token the bootstrap answer carries, if it is not empty.
pub open spec fn accepted_token(token: Option<String>) -> Option<String> {
    match token {
        Some(t) if t@.len() > 0 => Some(t),
        _ => None,
    }
}

pub open spec fn missing_token_hint() -> Seq<char> {
    "鉴权成功但未获取到访问令牌，请重试或检查账号状态"@
}

/// The ledger an accepted binding writes: the bot and the token of the
/// bootstrap answer. An answer without a token writes nothing: it is a
/// protocol error at the endpoint's URL whose body is the answer
/// (`response_json`), and the old ledger stays.
pub fn init_ledger(endpoint: &Endpoint, token: Option<String>, response_json: String, bot: BotCredential) -> (r:
    Result<Credentials, Error>)
    ensures
        match accepted_token(token) {
            Some(t) => r matches Ok(c) && c.bot == Some(bot) && c.token == Some(t),
            None => r matches Err(
                Error::Wecom(WecomError::Transport(TransportError::Parse { message, endpoint: ep, body })),
            ) && message@ == missing_token_hint() && ep == endpoint.url && body == response_json,
        },
{
    match token {
        Some(t) if t.as_str().unicode_len() > 0 => Ok(Credentials { bot: Some(bot), token: Some(t) }),
        _ => Err(Error::protocol(
            "鉴权成功但未获取到访问令牌，请重试或检查账号状态".to_string(),
            endpoint.url.clone(),
            response_json,
        )),
    }
}

/// The bot a ledger read shows: none when the read failed or found nothing.
pub open spec fn shown_bot(loaded: Result<Option<Credentials>, AuthError>) -> Option<BotCredential> {
    match loaded {
        Ok(Some(c)) => c.bot,
        _ => None,
    }
}

/// What `auth show` prints, one line per entry: with `status_only` just
/// `authorized` / `unauthorized`; else the status and the bot id.
pub fn show_lines(status_only: bool, loaded: Result<Option<Credentials>, AuthError>) -> (r: Vec<String>)
    ensures
        status_only ==> r@.len() == 1 && r@[0]@ == (if shown_bot(loaded) is Some {
            "authorized"@
        } else {
            "unauthorized"@
        }),
        !status_only ==> match shown_bot(loaded) {
            Some(b) => r@.len() == 2 && r@[0]@ == "Status: authorized"@ && r@[1]@ == "Bot ID: "@
                + b.id@,
            None => r@.len() == 1 && r@[0]@ == "Status: unauthorized"@,
        },
{
    let bot = match loaded {
        Ok(Some(c)) => c.bot,
        _ => None,
    };
    let mut lines: Vec<String> = Vec::new();
    if status_only {
        match bot {
            Some(_) => lines.push("authorized".to_string()),
            None => lines.push("unauthorized".to_string()),
        }
        return lines;
    }
    match bot {
        Some(b) => {
            lines.push("Status: authorized".to_string());
            let mut id_line = "Bot ID: ".to_string();
            id_line.append(b.id.as_str());
            lines.push(id_line);
        },
        None => lines.push("Status: unauthorized".to_string()),
    }
    lines
}

pub open spec fn outside_base_text() -> Seq<char> {
    "仅支持当前目录下的路径（如 qr.png 或 sub/qr.png）"@
}

/// The directory that must exist before a QR-code image is written to
/// `path`: its parent, unless that is empty.
pub open spec fn required_parent(path: Seq<char>) -> Option<Seq<char>> {
    match parent_of(path) {
        Some(q) if q.len() > 0 => Some(q),
        _ => None,
    }
}

/// The directory that must exist before writing to `path` (see [`required_parent`]).
pub fn qrcode_output_parent(path: &str) -> (r: Option<String>)
    ensures
        match r {
            Some(q) => required_parent(path@) == Some(q@),
            None => required_parent(path@) is None,
        },
{
    match parent_text(path) {
        Some(q) => if q.as_str().unicode_len() > 0 {
            Some(q)
        } else {
            None
        },
        None => None,
    }
}

/// Why a QR-code image may not go to `path` (under the working directory
/// `base`), if it may not: `resolved` is where `path` lands once joined to
/// `base` and its links resolved; it must stay inside `base`; the required
/// parent must be a directory (`parent_is_dir`); and `path` must not be one
/// (`target_is_dir`).
pub open spec fn output_path_refusal(
    path: Seq<char>,
    base: Seq<char>,
    resolved: Seq<char>,
    parent_is_dir: bool,
    target_is_dir: bool,
) -> Option<Seq<char>> {
    if !lies_within(base, resolved) {
        Some(outside_base_text())
    } else if required_parent(path) is Some && !parent_is_dir {
        Some("输出目录不存在: "@ + required_parent(path)->0)
    } else if target_is_dir {
        Some("输出路径是目录: "@ + path)
    } else {
        None
    }
}

/// Checks the `--output-qrcode` path before any scan starts (see
/// [`output_path_refusal`]); a refusal is a validation error.
pub fn validate_qrcode_output_path(
    path: &str,
    base: &str,
    resolved: &str,
    parent_is_dir: bool,
    target_is_dir: bool,
) -> (r: Result<(), Error>)
    ensures
        match output_path_refusal(path@, base@, resolved@, parent_is_dir, target_is_dir) {
            None => r is Ok,
            Some(m) => r matches Err(Error::Wecom(WecomError::Validation(t))) && t@ == m,
        },
{
    if !is_within(base, resolved) {
        return Err(Error::Wecom(
            WecomError::Validation("仅支持当前目录下的路径（如 qr.png 或 sub/qr.png）".to_string()),
        ));
    }
    if let Some(q) = qrcode_output_parent(path) {
        if !parent_is_dir {
            let mut m = "输出目录不存在: ".to_string();
            m.append(q.as_str());
            return Err(Error::Wecom(WecomError::Validation(m)));
        }
    }
    if target_is_dir {
        let mut m = "输出路径是目录: ".to_string();
        m.append(path);
        return Err(Error::Wecom(WecomError::Validation(m)));
    }
    Ok(())
}

/// The bearer token the command-line transport starts with: a non-empty
/// override (the environment's, in builds that read one) wins; otherwise
/// the token of the stored ledger (none when the read failed or found none).
pub open spec fn start_token(override_token: Option<String>, loaded: Result<Option<Credentials>, AuthError>) -> Option<
    String,
> {
    match override_token {
        Some(t) if t@.len() > 0 => Some(t),
        _ => match loaded {
            Ok(Some(c)) => c.token,
            _ => None,
        },
    }
}

/// The token the command-line transport starts with (see [`start_token`]).
pub fn resolve_access_token(override_token: Option<String>, loaded: Result<Option<Credentials>, AuthError>) -> (r:
    Option<String>)
    ensures
        r == start_token(override_token, loaded),
        (override_token matches Some(t) && t@.len() > 0) ==> r == override_token,
        !(override_token matches Some(t) && t@.len() > 0) ==> {
            &&& (loaded matches Ok(Some(c))) ==> r == loaded->Ok_0->0.token
            &&& !(loaded matches Ok(Some(c))) ==> r is None
        },
{
    if let Some(t) = override_token {
        if t.as_str().unicode_len() > 0 {
            return Some(t);
        }
    }
    match loaded {
        Ok(Some(c)) => c.token,
        _ => None,
    }
}

/// Law (the starting bearer token): a non-empty override wins; without one
/// (absent or empty) the token is exactly the one of the stored ledger, and
/// there is none when the read failed or found no ledger.
pub proof fn law_start_token(override_token: Option<String>, loaded: Result<Option<Credentials>, AuthError>)
    ensures
        (override_token matches Some(t) && t@.len() > 0) ==> start_token(override_token, loaded)
            == override_token,
        !(override_token matches Some(t) && t@.len() > 0) ==> {
            &&& (loaded matches Ok(Some(c))) ==> start_token(override_token, loaded) == loaded->Ok_0->0.token
            &&& !(loaded matches Ok(Some(c))) ==> start_token(override_token, loaded) is None
        },
{
}

} // verus!
