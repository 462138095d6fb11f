[package]
name = "snowflake_mapper"
version = "0.1.0"
edition = "2021"
publish = false

[dependencies]
anyhow = "*"
async-trait = "*"
clap = { version = "*", features = ["derive"] }
dotenv = "*"
indicatif = "*"
serde = { version = "*", features = ["derive"] }
serde_json = "*"
snowflake-connector-rs = "=0.9.0"
thiserror = "*"
tokio = { version = "*", features = ["rt-multi-thread", "macros", "time"] }
tracing = "*"
tracing-subscriber = "*"
