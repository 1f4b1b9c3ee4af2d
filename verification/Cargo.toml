[package]
name = "viridis_staking"
version = "0.1.0"
edition = "2021"
publish = false

[dependencies]
rust_decimal = "1"
anchor-lang = { version = "0.30", features = ["init-if-needed"] }
anchor-spl = { version = "0.30", features = ["metadata"] }

[dev-dependencies]
chrono = "0.4"
