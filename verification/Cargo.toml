[package]
name = "schnose_discord_bot"
version = "0.1.0"
edition = "2021"
publish = false

[dependencies]
futures = "0.3"
gokz_rs = { version = "=0.18.5", features = ["global_api", "kzgo_api", "schnose_api"] }
itertools = "0.10"
lazy_static = "1"
poise = "0.5"
rand = "=0.8.8"
serde = { version = "1", features = ["derive"] }
serenity = "0.11"
shuttle-runtime = "0.12"
shuttle-secrets = "0.12"
shuttle-service = "0.12"
sqlx = { version = "0.6", features = ["runtime-tokio-rustls", "postgres", "chrono"] }
thiserror = "1"
tokio = { version = "1", features = ["macros", "rt-multi-thread"] }
tracing = "0.1"

[dev-dependencies]
regex = "=1.13.1"
