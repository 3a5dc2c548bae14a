[package]
name = "openai_rst"
version = "0.1.0"
edition = "2021"
publish = false

[dependencies]
async-std = "1"
reqwest = { version = "0.12", default-features = false, features = ["json"] }
serde = { version = "1", features = ["derive"] }
serde_json = "1"
strum = { version = "0.26", features = ["derive"] }
thiserror = "1"
