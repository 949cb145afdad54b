[package]
name = "gb_rs"
version = "0.1.0"
edition = "2021"
publish = false

[dependencies]
actix-web = "3"
dotenv = "0.15"
rand = "0.8"
serde = { version = "1", features = ["derive"] }
serde_json = "1"
tracing = "0.1"
tracing-actix-web = "0.2"
tracing-bunyan-formatter = "0.1"
tracing-log = "0.1"
tracing-subscriber = { version = "0.2", features = ["registry", "env-filter"] }
