[package]
name = "serv"
version = "0.1.0"
edition = "2021"
publish = false

[dependencies]
rand = "0.8"
axum = "*"
tokio = { version = "*", features = ["rt-multi-thread", "macros", "net", "fs", "signal"] }
notify = "*"
arboard = "*"
reqwest = { version = "*", default-features = false, features = ["blocking"] }
tracing = "*"
tracing-subscriber = "*"
