[package]
name = "ccip_read"
version = "0.1.0"
edition = "2021"
publish = false

[dependencies]
ethers = { version = "2", default-features = false }
reqwest = { version = "0.11", default-features = false, features = ["json"] }
serde = { version = "1", features = ["derive"] }
serde_json = "1"
async-trait = "0.1"
eyre = "0.6"
tracing = "0.1"
derive_more = "0.99"
derive-new = "0.6"

[dev-dependencies]
regex = "1"
