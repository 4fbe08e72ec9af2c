[package]
name = "autoconfig"
version = "0.1.0"
edition = "2021"
publish = false

[dependencies]
futures = "*"
surf = { version = "*", default-features = false, features = ["h1-client-rustls"] }
async-std-resolver = "*"
trust-dns-resolver = "*"
trust-dns-proto = "*"
serde = { version = "*", features = ["derive"] }
serde-xml-rs = "*"
bytes = "*"
