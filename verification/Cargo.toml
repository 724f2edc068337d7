[package]
name = "context_store"
version = "0.1.0"
edition = "2021"
publish = false

[dependencies]
sanitize-filename = "*"
serde = { version = "1", features = ["derive"] }
serde_json = "1"
structopt = "0.3"
dirs = "*"
which = "*"
