//! The top-level `init` command: which route it takes, the bot a
//! `--bootstrap` run reads from its environment, and what a failed
//! verification reports.

use vstd::prelude::*;
use vstd::string::StringExecFns;

use crate::cli_error::Error;
use crate::credentials::BotCredential;
use crate::transport::TransportError;
use crate::wecom_error::WecomError;
use crate::text::{trim_whitespace, trimmed};

verus! {

broadcast use vstd::string::to_string_from_display_ensures_for_str;

/// Environment variable holding the bot id of a `--bootstrap` run.
pub const ENV_BOOTSTRAP_BOT_ID: &'static str = "WECOM_CLI_BOOTSTRAP_BOT_ID";

/// Environment variable holding the bot secret of a `--bootstrap` run.
pub const ENV_BOOTSTRAP_BOT_SECRET: &'static str = "WECOM_CLI_BOOTSTRAP_BOT_SECRET";

/// The flags of `init` (`--noninteractive` and `--bootstrap` exclude each other).
#[derive(Debug, Clone, Copy, PartialEq, Eq, Structural)]
pub struct InitArgs {
    /// Bind by QR code without asking.
    pub noninteractive: bool,
    /// Take the bot from the environment.
    pub bootstrap: bool,
}

/// The route `init` takes.
#[derive(Debug, Clone, Copy, PartialEq, Eq, Structural)]
pub enum InitPlan {
    /// Read the bot from the environment.
    Bootstrap,
    /// Bind by QR code.
    Qrcode,
    /// Let the user choose between QR code and manual input.
    Select,
}

pub open spec fn needs_terminal_text(bin: Seq<char>) -> Seq<char> {
    "当前环境不支持交互式操作，请使用 --noninteractive 或 --bootstrap：\n  "@ + bin
        + " init --noninteractive    # 扫码接入\n  "@ + bin
        + " init --bootstrap         # 通过环境变量预配置"@
}

/// The route of `init` (command name `bin`): `--bootstrap` first (a
/// bootstrap run has no terminal); without a terminal only
/// `--noninteractive` may go on; then QR code, or the interactive choice.
pub fn init_plan(args: InitArgs, stderr_is_tty: bool, bin: &str) -> (r: Result<InitPlan, String>)
    ensures
        args.bootstrap ==> r == Ok::<InitPlan, String>(InitPlan::Bootstrap),
        !args.bootstrap && !args.noninteractive && !stderr_is_tty ==> (r matches Err(m) && m@
            == needs_terminal_text(bin@)),
        !args.bootstrap && args.noninteractive ==> r == Ok::<InitPlan, String>(InitPlan::Qrcode),
        !args.bootstrap && !args.noninteractive && stderr_is_tty ==> r == Ok::<InitPlan, String>(
            InitPlan::Select,
        ),
{
    if args.bootstrap {
        return Ok(InitPlan::Bootstrap);
    }
    if !args.noninteractive && !stderr_is_tty {
        let mut m = "当前环境不支持交互式操作，请使用 --noninteractive 或 --bootstrap：\n  ".to_string();
        m.append(bin);
        m.append(" init --noninteractive    # 扫码接入\n  ");
        m.append(bin);
        m.append(" init --bootstrap         # 通过环境变量预配置");
        return Err(m);
    }
    if args.noninteractive {
        Ok(InitPlan::Qrcode)
    } else {
        Ok(InitPlan::Select)
    }
}

pub open spec fn missing_env_text(name: Seq<char>) -> Seq<char> {
    "缺少环境变量 "@ + name + "（--bootstrap 模式必填）"@
}

pub open spec fn empty_env_text(name: Seq<char>) -> Seq<char> {
    name + " 不能为空"@
}

/// What a `--bootstrap` run makes of its two variables (`None`: unset or
/// not Unicode): both must be set and hold more than whitespace; the id is
/// checked first. The values are used as they are.
pub open spec fn bootstrap_outcome(bot_id: Option<String>, bot_secret: Option<String>) -> Result<
    (Seq<char>, Seq<char>),
    Seq<char>,
> {
    match (bot_id, bot_secret) {
        (None, _) => Err(missing_env_text("WECOM_CLI_BOOTSTRAP_BOT_ID"@)),
        (Some(_), None) => Err(missing_env_text("WECOM_CLI_BOOTSTRAP_BOT_SECRET"@)),
        (Some(id), Some(sec)) => if trimmed(id@).len() == 0 {
            Err(empty_env_text("WECOM_CLI_BOOTSTRAP_BOT_ID"@))
        } else if trimmed(sec@).len() == 0 {
            Err(empty_env_text("WECOM_CLI_BOOTSTRAP_BOT_SECRET"@))
        } else {
            Ok((id@, sec@))
        },
    }
}

fn missing_env(name: &str) -> (m: String)
    ensures
        m@ == missing_env_text(name@),
{
    let mut m = "缺少环境变量 ".to_string();
    m.append(name);
    m.append("（--bootstrap 模式必填）");
    m
}

fn empty_env(name: &str) -> (m: String)
    ensures
        m@ == empty_env_text(name@),
{
    let mut m = name.to_string();
    m.append(" 不能为空");
    m
}

/// The bot of a `--bootstrap` run (see [`bootstrap_outcome`]).
pub fn bootstrap_bot(bot_id: Option<String>, bot_secret: Option<String>) -> (r: Result<BotCredential, String>)
    ensures
        match bootstrap_outcome(bot_id, bot_secret) {
            Ok((id, sec)) => r matches Ok(b) && b.id@ == id && b.secret@ == sec,
            Err(t) => r matches Err(m) && m@ == t,
        },
{
    let id = match bot_id {
        Some(v) => v,
        None => {
            return Err(missing_env(ENV_BOOTSTRAP_BOT_ID));
        },
    };
    let sec = match bot_secret {
        Some(v) => v,
        None => {
            return Err(missing_env(ENV_BOOTSTRAP_BOT_SECRET));
        },
    };
    let tid = trim_whitespace(id.as_str());
    if tid.as_str().unicode_len() == 0 {
        return Err(empty_env(ENV_BOOTSTRAP_BOT_ID));
    }
    let tsec = trim_whitespace(sec.as_str());
    if tsec.as_str().unicode_len() == 0 {
        return Err(empty_env(ENV_BOOTSTRAP_BOT_SECRET));
    }
    Ok(BotCredential::new(id, sec))
}

/// How fetching the service configuration failed during verification.
#[derive(Debug, Clone)]
pub enum VerifyFailure {
    /// The service answered with a business error (its `errmsg`).
    Api { errmsg: Option<String> },
    /// The service answered with an HTTP error status.
    Http { status: u16 },
    /// Anything else (the error's text).
    Other(String),
}

pub open spec fn verify_default_text() -> Seq<char> {
    "验证企业微信机器人凭证失败"@
}

/// What a failed verification reports: the service's non-empty `errmsg`;
/// the default text with the HTTP status; the other error's text; else the
/// default text.
pub open spec fn verify_failure_message(f: VerifyFailure) -> Seq<char> {
    match f {
        VerifyFailure::Api { errmsg } => match errmsg {
            Some(m) if m@.len() > 0 => m@,
            _ => verify_default_text(),
        },
        VerifyFailure::Http { status } => verify_default_text() + " HTTP返回状态码 "@
            + crate::text::nat_text(status as nat),
        VerifyFailure::Other(t) => t@,
    }
}

/// The message of a failed verification (see [`verify_failure_message`]).
pub fn verify_failure_text(f: &VerifyFailure) -> (r: String)
    ensures
        r@ == verify_failure_message(*f),
{
    match f {
        VerifyFailure::Api { errmsg } => match errmsg {
            Some(m) if m.as_str().unicode_len() > 0 => m.clone(),
            _ => "验证企业微信机器人凭证失败".to_string(),
        },
        VerifyFailure::Http { status } => {
            let mut s = "验证企业微信机器人凭证失败".to_string();
            s.append(" HTTP返回状态码 ");
            crate::text::push_u64_text(&mut s, *status as u64);
            s
        },
        VerifyFailure::Other(t) => t.clone(),
    }
}

/// How a failed verification is reported, from the error the bootstrap
/// exchange ended with: a business error gives the service's message, an
/// HTTP error its status, anything else its display text.
pub fn verify_failure_of(e: Error) -> (f: VerifyFailure)
    ensures
        match e {
            Error::Wecom(WecomError::Transport(TransportError::Api { message, .. })) => f
                == VerifyFailure::Api { errmsg: Some(message) },
            Error::Wecom(WecomError::Transport(TransportError::Http { status, .. })) => f
                == VerifyFailure::Http { status },
            _ => f matches VerifyFailure::Other(t) && t@ == e.spec_display(),
        },
{
    match e {
        Error::Wecom(WecomError::Transport(TransportError::Api { message, .. })) => VerifyFailure::Api {
            errmsg: Some(message),
        },
        Error::Wecom(WecomError::Transport(TransportError::Http { status, .. })) => VerifyFailure::Http {
            status,
        },
        other => VerifyFailure::Other(other.display_text()),
    }
}

} // verus!
