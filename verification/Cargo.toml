[package]
name = "unc_jsonrpc"
version = "0.1.0"
edition = "2021"
publish = false

[dependencies]
actix = "0.13"
actix-cors = "0.6"
actix-web = { version = "4", default-features = false, features = ["macros"] }
futures = "0.3"
prometheus = { version = "0.13", default-features = false }
serde = { version = "1", features = ["derive"] }
serde_json = "1"
strum = { version = "0.24", features = ["derive"] }
tokio = { version = "1", features = ["macros", "rt", "sync", "time"] }
tracing = "0.1"
