[package]
name = "filetransfer"
version = "0.1.0"
edition = "2021"
publish = false

[dependencies]
axum = { version = "*", features = ["multipart"] }
axum-client-ip = "*"
clap = { version = "*", features = ["derive"] }
local-ip-address = "*"
sanitize-filename = "*"
tokio = { version = "*", features = ["fs", "io-util", "net", "rt-multi-thread", "macros"] }
tokio-util = { version = "*", features = ["io"] }
urlencoding = "*"
