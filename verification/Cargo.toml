[package]
name = "pinreq"
version = "0.1.0"
edition = "2021"
publish = false

[dependencies]
async-trait = "0.1"
chrono = "0.4"
clap = "2"
dialoguer = "*"
env_logger = "*"
futures = "0.3"
gpgme = "*"
hyper = { version = "0.14", features = ["client", "http1", "tcp"] }
hyper-tls = "0.5"
log = "0.4"
serde = { version = "1", features = ["derive"] }
serde_json = "1"
tokio = { version = "1", features = ["macros", "rt-multi-thread"] }
toml = "*"
url = "2"
