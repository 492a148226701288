//! Verified core of the WeCom command-line tool: credentials, the bot gateway
//! protocol, the authenticated transport decisions and the error model.

pub mod auth_error;
pub mod backend;
pub mod cli_auth;
pub mod cli_error;
pub mod credentials;
pub mod file_store;
pub mod crypto;
pub mod gateway;
pub mod init_cmd;
pub mod media;
pub mod paths;
pub mod polling;
pub mod provider;
pub mod qrcode;
pub mod runtime;
pub mod text;
pub mod transport;
pub mod wecom_error;
