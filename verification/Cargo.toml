[package]
name = "lightdm_contest_rs_greeter"
version = "0.1.0"
edition = "2021"
publish = false

[dependencies]
chrono = "*"
tokio = { version = "*", features = ["full"] }
zbus = "*"
serde = { version = "*", features = ["derive"] }
toml = "*"
anyhow = "*"
log = "*"
env_logger = "*"
