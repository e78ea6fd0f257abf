[package]
name = "passman"
version = "0.1.0"
edition = "2021"
publish = false

[dependencies]
arboard = { version = "=3.7.0", default-features = false }
rand = "=0.9.5"
serde_json = { version = "=1.0.154", features = ["preserve_order"] }
tabled = { version = "=0.22.0", default-features = false, features = ["std"] }
