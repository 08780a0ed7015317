[package]
name = "hsr_optimizer_engine"
version = "0.1.0"
edition = "2021"
publish = false

[dependencies]
axum = "0.7"
itertools = "0.13"
rand = { version = "0.8", features = ["small_rng"] }
rayon = "1"
serde = { version = "1", features = ["derive"] }
tokio = { version = "1", features = ["macros", "rt-multi-thread", "net"] }
tower-http = { version = "0.5", features = ["cors"] }
tracing-subscriber = "0.3"
