[package]
name = "auth_session"
version = "0.1.0"
edition = "2021"
publish = false

[dependencies]
actix-web = { version = "=4.18.1", default-features = false, features = ["macros", "cookies"] }
actix-web-validator = "=7.0.0"
diesel = { version = "=2.3.14", features = ["postgres"] }
epoch-timestamp = "=1.0.0"
log = "=0.4.34"
sentry = { version = "=0.49.3", default-features = false }
serde = { version = "=1.0.229", features = ["derive"] }
time = "=0.3.55"
validator = "=0.20.0"
