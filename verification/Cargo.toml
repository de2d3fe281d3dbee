[package]
name = "mcm_api_wrapper"
version = "0.1.0"
edition = "2021"
publish = false

[dependencies]
derive-getters = "*"
reqwest = { version = "0.11", default-features = false, features = ["json"] }
serde = { version = "1", features = ["derive"] }
serde_qs = "0.8"
tokio = { version = "1", features = ["time"] }

[dev-dependencies]
http = "0.2"
