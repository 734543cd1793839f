[package]
name = "goose_cli"
version = "0.1.0"
edition = "2021"
publish = false

[dependencies]
anstream = "*"
anyhow = "*"
bat = { version = "*", default-features = false, features = ["regex-fancy"] }
cliclack = "*"
console = "*"
indicatif = "*"
rmcp = { version = "*", default-features = false }
serde = { version = "*", features = ["derive"] }
serde_json = { version = "*", features = ["preserve_order"] }
tracing = "*"
