[package]
name = "reservation"
version = "0.1.0"
edition = "2021"
publish = false

[dependencies]
chrono = "0.4"
tokio = { version = "1", features = ["sync", "rt", "rt-multi-thread", "macros"] }
futures = "0.3"
async-trait = "0.1"
thiserror = "1"
tracing = "0.1"
sqlx = { version = "0.8", default-features = false, features = ["runtime-tokio", "postgres", "chrono"] }
tonic = { version = "*", default-features = false }
