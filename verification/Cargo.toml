[package]
name = "sf_api"
version = "0.1.0"
edition = "2021"
publish = false

[dependencies]
hex = "=0.4.3"
parity-scale-codec = "=3.7.5"
rand = "=0.8.8"
serde = { version = "=1.0.229", features = ["derive"] }
serde_json = "=1.0.154"
sp-core = "=43.0.0"
sp-keyring = "*"
sp-runtime = "*"
structopt = "=0.3.26"
