[package]
name = "pipe_cli"
version = "0.1.0"
edition = "2021"
publish = false

[dependencies]
serde_json = "1"
serde = { version = "1", features = ["derive"] }
confy = "*"
dialoguer = "*"
reqwest = { version = "*", default-features = false, features = ["blocking", "rustls-tls"] }
