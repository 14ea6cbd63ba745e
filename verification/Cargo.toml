[package]
name = "fieri"
version = "0.1.0"
edition = "2021"
publish = false

[dependencies]
url = "2"
reqwest = { version = "0.11", default-features = false, features = ["multipart"] }
tokio = { version = "1", default-features = false, features = ["rt-multi-thread", "macros"] }
clap = { version = "4", features = ["derive", "env"] }
rustyline = "*"
