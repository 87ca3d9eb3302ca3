[package]
name = "collector"
version = "0.1.0"
edition = "2021"
publish = false

[dependencies]
actix-web = "*"
clap = { version = "*", features = ["derive"] }
daemonize = "*"
dotenv = "*"
env_logger = "*"
log = "*"
rdkafka = "*"
serde = { version = "*", features = ["derive"] }
serde_json = "*"
serde_yaml = "*"
