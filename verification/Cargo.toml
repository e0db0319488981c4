[package]
name = "realworld_loco"
version = "0.1.0"
edition = "2021"
publish = false

[dependencies]
slug = "=0.1.6"
serde = { version = "=1.0.229", features = ["derive"] }
serde_json = "=1.0.154"
async-trait = "=0.1.92"
axum = { version = "=0.8.9", features = ["macros"] }
chrono = { version = "=0.4.45", default-features = false, features = ["std"] }
sea-orm = { version = "=1.1.20", default-features = false, features = ["macros", "with-chrono", "with-uuid"] }
sea-orm-migration = { version = "=1.1.20", default-features = false }
tokio = { version = "=1.54.1", default-features = false, features = ["macros", "rt-multi-thread"] }
tracing = "=0.1.44"
