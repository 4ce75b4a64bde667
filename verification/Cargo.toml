[package]
name = "bls_permissions"
version = "0.1.0"
edition = "2021"
publish = false

[dependencies]
fqdn = "*"
url = "2"
serde = { version = "1", features = ["derive"] }
serde_json = "1"
which = "*"
libc = "0.2"
parking_lot = "*"
