[package]
name = "royalty_settlement"
version = "0.1.0"
edition = "2021"
publish = false

[dependencies]
casper-types = "4.0"
casper-contract = { version = "4.0", default-features = false }
