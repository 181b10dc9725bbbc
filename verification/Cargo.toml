[package]
name = "apex-windows"
version = "0.1.0"
edition = "2021"
publish = false

[dependencies]
anyhow = "=1.0.104"
async-stream = "=0.3.6"
futures-core = "=0.3.34"
tokio = { version = "=1.54.1", features = ["time"] }
windows = { version = "=0.52.0", features = ["Foundation", "Media_Control"] }

[dev-dependencies]
tokio = { version = "=1.54.1", features = ["rt", "test-util", "time"] }
