[package]
name = "user_lookup"
version = "0.1.0"
edition = "2021"
publish = false

[dependencies]
parking_lot = "*"
postgres = "*"
rust_decimal = { version = "*", features = ["db-postgres"] }
serde = { version = "*", features = ["derive"] }
serde_json = "*"
