[package]
name = "sruc"
version = "0.1.0"
edition = "2021"
publish = false

[dependencies]
anyhow = "*"
base64 = "=0.23.1"
chrono = "=0.4.45"
reqwest = { version = "=0.13.5", default-features = false, features = ["form"] }
serde = { version = "*", features = ["derive"] }
serde_json = "*"
tokio = { version = "*", features = ["macros", "rt-multi-thread"] }
zune-inflate = "=0.2.54"
