[package]
name = "latticeclient"
version = "0.1.0"
edition = "2021"
publish = false

[dependencies]
chrono = "*"
crossbeam = "*"
nats = "*"
serde = { version = "*", features = ["derive"] }
serde_json = "*"
structopt = "*"
uuid = { version = "*", features = ["v4"] }
wascap = "*"
