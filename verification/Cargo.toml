[package]
name = "lnpay"
version = "0.1.0"
edition = "2021"
publish = false

[dependencies]
lightning-invoice = "*"
bitcoin = { version = "*", features = ["secp-recovery"] }
rand = "*"
serde = { version = "*", features = ["derive"] }
serde_json = "*"
reqwest = { version = "*", default-features = false, features = ["json"] }
tokio = { version = "*", features = ["rt-multi-thread", "macros", "sync", "time"] }
futures = "*"

[dev-dependencies]
hex = "*"
