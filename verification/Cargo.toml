[package]
name = "site_bootstrap"
version = "0.1.0"
edition = "2021"
publish = false

[dependencies]
axum = "=0.6.20"
leptos = { version = "=0.4.10", features = ["ssr"] }
leptos_axum = "=0.4.10"
leptos_router = { version = "=0.4.10", features = ["ssr"] }
log = "=0.4.34"
matchit = "=0.7.3"
simple_logger = "=4.3.3"
tokio = { version = "=1.54.1", features = ["rt-multi-thread", "macros"] }
