[package]
name = "lariv_website"
version = "0.1.0"
edition = "2021"
publish = false

[dependencies]
lariv-rs = { version = "=0.1.0", default-features = false }
sea-orm = { version = "*", default-features = false }
tokio = { version = "1", default-features = false, features = ["io-util", "rt", "macros"] }
anyhow = "1"
async-trait = "0.1"
chrono = { version = "0.4", default-features = false, features = ["clock"] }
tracing = "0.1"
tracing-subscriber = { version = "0.3", default-features = false, features = ["env-filter", "fmt"] }
