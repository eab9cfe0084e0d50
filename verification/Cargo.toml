[package]
name = "fast_marketplace"
version = "0.1.0"
edition = "2021"
publish = false

[dependencies]
image = { version = "=0.25.10", default-features = false, features = ["rayon", "bmp", "dds", "exr", "ff", "gif", "hdr", "ico", "jpeg", "png", "pnm", "qoi", "tga", "tiff", "webp"] }
serde = { version = "=1.0.229", features = ["derive"] }
serde_json = "=1.0.154"
tokio = { version = "=1.54.1", features = ["full"] }
axum = "=0.8.9"
tower-http = { version = "=0.6.11", features = ["cors"] }
reqwest = { version = "=0.12.28", default-features = false, features = ["rustls-tls"] }
chromiumoxide = { version = "=0.9.1", features = ["fetcher", "rustls", "zip8"] }
futures = "=0.3.34"
dirs = "=5.0.1"
uuid = { version = "=1.29.0", features = ["v4"] }
async-trait = "=0.1.92"
thiserror = "=2.0.21"
