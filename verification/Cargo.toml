[package]
name = "settlemate"
version = "0.1.0"
edition = "2021"
publish = false

[dependencies]
serde = { version = "=1.0.229", features = ["derive"] }
sea-orm-migration = { version = "1", default-features = false }
async-trait = "0.1"
