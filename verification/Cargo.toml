[package]
name = "user_service"
version = "0.1.0"
edition = "2021"
publish = false

[dependencies]
axum = "=0.7.9"
axum-extra = { version = "=0.9.6", features = ["typed-header"] }
bcrypt = "=0.15.1"
chrono = "=0.4.45"
clap = { version = "=4.6.7", features = ["derive"] }
const-hex = "=1.19.3"
env_logger = "=0.11.11"
jwt-simple = { version = "=0.12.17", default-features = false, features = ["pure-rust"] }
log = "=0.4.34"
prost = "=0.12.6"
prost-types = "=0.12.6"
serde = { version = "=1.0.229", features = ["derive"] }
serde_json = "=1.0.154"
tokio = { version = "=1.54.1", features = ["full"] }
tokio-postgres = { version = "=0.7.18", features = ["with-chrono-0_4"] }
tonic = "=0.11.0"
