[package]
name = "audiosource"
version = "1.2.0"
edition = "2021"
publish = false

[dependencies]
sha2 = "0.10"
qrcode = { version = "0.14", default-features = false }
rcgen = "0.13"
anyhow = "1"
axum = { version = "0.7", features = ["ws"] }
axum-server = { version = "0.7", features = ["tls-rustls"] }
futures-util = "0.3"
tokio = { version = "1", features = ["rt-multi-thread", "time", "macros"] }
crossterm = "0.28"
ratatui = "0.29"
ksni = "0.3"
clap = { version = "4", features = ["derive"] }
libc = "0.2"
dirs = "5"
local-ip-address = "0.6"
