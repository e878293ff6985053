[package]
name = "dank-pinentry"
version = "0.1.0"
edition = "2021"
publish = false

[dependencies]
clap = { version = "4", features = ["derive"] }
config = { version = "0.15", default-features = false, features = ["toml"] }
libc = "0.2"
serde = { version = "1", features = ["derive"] }
serde_json = "1"
zeroize = "1"
