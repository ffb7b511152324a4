[package]
name = "addresspack"
version = "0.1.0"
edition = "2021"
publish = false

[dependencies]
clap = { version = "*", features = ["derive"] }
csv = "*"
indicatif = "*"
itertools = "*"
rusqlite = "*"
serde = { version = "*", features = ["derive"] }
thiserror = "*"
