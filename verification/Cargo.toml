[package]
name = "comic_pipeline"
version = "0.1.0"
edition = "2021"
publish = false

[dependencies]
url = "2"
image = "0.24"
tokio = { version = "1", features = ["full"] }
thirtyfour = "0.31"
reqwest = "0.11"
config = "0.13"
serde = { version = "1", features = ["derive"] }
tracing = "0.1"
tracing-subscriber = { version = "0.3", features = ["env-filter"] }
bytes = "1"
threadpool = "1"
anyhow = "1"
