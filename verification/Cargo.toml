[package]
name = "apollo"
version = "0.1.0"
edition = "2021"
publish = false

[dependencies]
serde_json = "1"
juniper = { version = "0.10", default-features = false }
hyper = "0.12"
futures = "0.1"
diesel = { version = "1", features = ["postgres"] }
r2d2 = "0.8"
r2d2-diesel = "1"
dotenv = "0.15"
log = "0.4"
pretty_env_logger = "0.4"
