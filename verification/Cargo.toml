[package]
name = "osrs_hiscore_proxy"
version = "0.1.0"
edition = "2021"
publish = false

[dependencies]
async-trait = "0.1"
csv = "1"
log = "0.4"
reqwest = { version = "0.11", default-features = false, features = ["rustls-tls"] }
rocket = { version = "0.5", features = ["json"] }
serde = { version = "1", features = ["derive"] }
thiserror = "1"
