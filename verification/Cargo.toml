[package]
name = "kinic_cli"
version = "0.1.0"
edition = "2021"
publish = false

[dependencies]
anyhow = "1"
candid = "*"
clap = { version = "4", features = ["derive"] }
hex = "0.4"
ic-agent = "*"
icrc-ledger-types = "*"
keyring = "*"
pem = "3"
pyo3 = "*"
ring = "0.17"
serde = { version = "1", features = ["derive"] }
serde_json = "1"
thiserror = "1"
tokio = { version = "1", features = ["rt-multi-thread", "macros", "net", "io-util"] }
tracing = "0.1"
tracing-subscriber = "0.3"
