[package]
name = "extant"
version = "0.1.0"
edition = "2021"
publish = false

[dependencies]
check-if-email-exists = "=0.8.32"
actix-web = "=4.15.0"
async-std-resolver = "=0.21.2"
env_logger = "=0.11.11"
futures = "=0.3.34"
gethostname = "=0.2.3"
log = "=0.4.34"
rand = "=0.8.8"
serde = { version = "=1.0.229", features = ["derive"] }
serde_json = "=1.0.151"
