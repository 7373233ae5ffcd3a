[package]
name = "hypertube"
version = "0.1.0"
edition = "2021"
publish = false

[dependencies]
actix-web = { version = "=4.18.1", default-features = false, features = ["macros"] }
async-trait = "0.1"
dotenvy = "0.15"
futures = "0.3"
librqbit = "=9.0.1"
librqbit-core = "=9.0.1"
log = "0.4"
mime_guess = "=2.0.5"
regex = "=1.13.1"
reqwest = { version = "=0.13.5", features = ["json"] }
serde = { version = "1", features = ["derive"] }
serde_json = "1"
thiserror = "2"
tokio = { version = "=1.54.1", features = ["full"] }
tokio-util = { version = "=0.7.20", features = ["io"] }
tracing = "0.1"
tracing-subscriber = { version = "0.3", features = ["env-filter"] }
urlencoding = "=2.1.3"
uuid = { version = "=1.29.0", features = ["v4", "serde"] }
