[package]
name = "optin_mailer"
version = "0.1.0"
edition = "2021"
publish = false

[dependencies]
axum = "*"
dotenvy = "*"
http = "*"
resend-rs = "*"
serde = { version = "*", features = ["derive"] }
serde_json = "*"
svix = "*"
tokio = { version = "*", features = ["full"] }
