[package]
name = "pada"
version = "0.1.0"
edition = "2021"
publish = false

[dependencies]
serde = { version = "1", features = ["derive"] }
serde_json = "1"
thiserror = "1"
toml = "0.8"
ureq = { version = "2", features = ["json"] }
clap = { version = "4", features = ["derive"] }
indicatif = "0.17"
libc = "0.2"
