[package]
name = "icrc1_test_suite"
version = "0.1.0"
edition = "2021"
publish = false

[dependencies]
anyhow = "*"
candid = "*"
futures = "*"
