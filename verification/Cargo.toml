[package]
name = "oauth_pkce"
version = "0.1.0"
edition = "2021"
publish = false

[dependencies]
oxide-auth = "=0.6.1"
url = "=2.5.8"
chrono = { version = "=0.4.45", default-features = false }
actix = "=0.13.5"
actix-web = { version = "=4.18.1", default-features = false, features = ["macros"] }
actix-files = "=0.7.2"
env_logger = "=0.11.11"
oxide-auth-actix = "=0.3.0"
sailfish = "=0.11.8"
