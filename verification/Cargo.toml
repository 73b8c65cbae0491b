[package]
name = "anchor_idl_kit"
version = "0.1.0"
edition = "2021"
publish = false

[dependencies]
anchor-lang-idl = { version = "=0.2.0", features = ["build", "convert"] }
serde_json = { version = "=1.0.151", features = ["preserve_order"] }
anyhow = "=1.0.104"
clap = { version = "=4.6.7", features = ["derive"] }
