[package]
name = "neothesia_logic"
version = "0.1.0"
edition = "2021"
publish = false

[dependencies]
midly = "0.5"
serde = { version = "1", features = ["derive"] }
thiserror = "*"
encoding_rs = "0.8"
rodio = "*"
log = "0.4"
