[package]
name = "onvif_camera"
version = "0.1.0"
edition = "2021"
publish = false

[dependencies]
roxmltree = "0.20"
axum = "0.8"
tokio = { version = "1", features = ["full"] }
tower-http = { version = "0.6", features = ["cors", "trace", "fs"] }
tracing = "0.1"
tracing-subscriber = { version = "0.3", features = ["env-filter"] }
serde = { version = "1", features = ["derive"] }
image = { version = "0.25", default-features = false }
imageproc = { version = "0.25", default-features = false }
ab_glyph = "0.2"
chrono = "0.4"
