[package]
name = "voxtus"
version = "0.1.0"
edition = "2021"
publish = false

[dependencies]
clap = { version = "*", features = ["derive"] }
ctrlc = "*"
dirs = "*"
fern = "*"
log = "*"
chrono = "*"
tempfile = "*"

[dev-dependencies]
serde_json = "*"
