[package]
name = "wecom_cli"
version = "0.1.0"
edition = "2021"
publish = false

[dependencies]
aes-gcm = "*"
rand = "*"
base64 = "*"
sha2 = "*"
hex = "*"
serde = { version = "1", features = ["derive"] }
serde_json = "1"
serde_repr = "*"
serde_with = "*"
indexmap = { version = "2", features = ["serde"] }
keyring = "*"
tempfile = "3"
reqwest = { version = "*", default-features = false, features = ["json"] }
tokio = { version = "1", features = ["rt-multi-thread", "macros", "time"] }
clap = { version = "4", features = ["derive"] }
cliclack = "*"
qr2term = "*"
qrcode = "*"
image = { version = "*", default-features = false, features = ["png"] }
anyhow = "1"
tracing = "0.1"

