[package]
name = "ame2020"
version = "0.1.0"
edition = "2021"
publish = false

[dependencies]
rustc_apfloat = "*"
serde = { version = "*", features = ["derive"] }
serde_json = "*"
thiserror = "*"
