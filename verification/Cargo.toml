[package]
name = "multitest"
version = "0.1.0"
edition = "2021"
publish = false

[dependencies]
chrono = "0.4"
colored = "2"
failure = "0.1"
rpassword = "5"
serde = { version = "1", features = ["derive"] }
serde_json = "1"
structopt = "0.3"
term = "0.7"
wait-timeout = "0.2"
