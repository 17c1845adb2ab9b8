[package]
name = "network_identity"
version = "0.1.0"
edition = "2021"
publish = false

[dependencies]
diem-types = "=0.0.3"
serde = { version = "1", features = ["derive"] }
structopt = "0.3"

[dev-dependencies]
serde_yaml = "0.8"
bcs = "0.1"
