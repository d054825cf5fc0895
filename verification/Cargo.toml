[package]
name = "walk"
version = "0.1.0"
edition = "2021"
publish = false

[dependencies]
unicase = "*"
rustyline = { version = "*", default-features = false }
thiserror = "*"
