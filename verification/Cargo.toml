[package]
name = "fukushuu"
version = "0.1.0"
edition = "2021"
publish = false

[dependencies]
rusqlite = { version = "*", features = ["bundled"] }
rand = "*"
clap = { version = "*", features = ["derive"] }
colored = "*"
env_logger = "*"
log = "*"
serde = { version = "*", features = ["derive"] }
serde_json = "*"
text_io = "*"
