[package]
name = "sphere_nav"
version = "0.1.0"
edition = "2021"
publish = false

[dependencies]
actix-files = "0.6"
actix-web = { version = "4", default-features = false, features = ["macros"] }
env_logger = "0.11"
lazy_static = "1"
serde_json = "1"
tera = { version = "1", default-features = false }
toml = "0.8"
