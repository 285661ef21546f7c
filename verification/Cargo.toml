[package]
name = "greeting_service"
version = "0.1.0"
edition = "2021"
publish = false

[dependencies]
actix-web = { version = "*", default-features = false, features = ["macros"] }
actix-rt = "*"
env_logger = "*"
envconfig = "*"
envconfig_derive = "*"
serde = { version = "1", features = ["derive"] }
serde_json = "1"
struct2swagger = "*"
struct2swagger_derive = "*"
