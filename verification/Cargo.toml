[package]
name = "defold-nvim-core"
version = "0.1.0"
edition = "2021"
publish = false

[dependencies]
anyhow = "1"
clap = { version = "4", features = ["derive"] }
dirs = "*"
edn-rs = "*"
flate2 = "1"
fs_extra = "1"
netstat2 = "*"
reqwest = { version = "0.12", default-features = false, features = ["blocking", "json", "rustls-tls"] }
rust-ini = "0.21"
serde = { version = "1", features = ["derive"] }
serde_json = "1"
serde_yaml = "0.9"
sha3 = "0.10"
strum = { version = "*", features = ["derive"] }
sysinfo = "*"
tar = "0.4"
termlauncher = "*"
textwrap = "0.16"
tracing = "0.1"
tracing-appender = "0.2"
tracing-subscriber = "0.3"
url = "2"
version-compare = "0.2"
walkdir = "2"
which = "*"
zip = "*"
