[package]
name = "ic-cosmos-wallet"
version = "0.1.0"
edition = "2021"
publish = false

[dependencies]
candid = "0.10"
ic-cdk = "0.17"
ic-management-canister-types = "*"
serde = { version = "1", features = ["derive"] }
serde_bytes = "0.11"
url = "2"
