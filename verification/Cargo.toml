[package]
name = "tcc_launcher"
version = "0.1.0"
edition = "2021"
publish = false

[dependencies]
sha2 = "0.10"
chrono = { version = "0.4", default-features = false, features = ["clock", "std"] }
serde_json = "1"
uuid = "1"
anyhow = "1"
thiserror = "2"
tokio = { version = "1", features = ["rt-multi-thread", "fs", "sync", "macros"] }
directories = "5"
sqlx = { version = "0.8", default-features = false, features = ["sqlite", "runtime-tokio", "migrate", "macros"] }
tracing = "0.1"
rfd = { version = "0.15", default-features = false, features = ["gtk3"] }
