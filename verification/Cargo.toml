[package]
name = "chatroom"
version = "0.1.0"
edition = "2021"
publish = false

[dependencies]
password-auth = "1"
askama = { version = "0.12", features = ["with-axum"] }
askama_axum = "0.4"
axum = "0.7"
axum-htmx = "0.5"
axum-login = "0.15"
serde = { version = "1", features = ["derive"] }
sqlx = { version = "0.7", default-features = false, features = ["runtime-tokio", "sqlite"] }
tokio = { version = "1", features = ["macros", "rt-multi-thread", "net"] }
tower = "0.4"
tower-http = { version = "0.5", features = ["fs"] }
