[package]
name = "crust_ai"
version = "0.1.0"
edition = "2021"
publish = false

[dependencies]
pwhash = "=1.0.0"
uuid = { version = "=1.29.1", features = ["serde"] }
time = { version = "=0.3.55", features = ["serde"] }
serde = { version = "=1.0.229", features = ["derive"] }
serde_json = "=1.0.154"
leptos = "=0.8.23"
leptos_meta = "=0.8.7"
leptos_router = "=0.8.17"
anyhow = "1"
async-trait = "0.1"
sqlx = { version = "0.8", default-features = false, features = ["postgres", "macros", "uuid", "time", "runtime-tokio-rustls"] }
axum_session_auth = "*"
axum_session_sqlx = "*"
web-sys = "0.3"
tw_merge = "*"
