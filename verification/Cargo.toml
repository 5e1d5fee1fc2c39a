[package]
name = "rpw"
version = "0.1.0"
edition = "2021"
publish = false

[dependencies]
anyhow = "1"
clap = { version = "4", features = ["derive"] }
dirs = "*"
openssl = "0.10"
rpassword = "5"
rust-argon2 = "*"
serde = { version = "1", features = ["derive"] }
serde_json = "1"
