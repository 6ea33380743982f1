[package]
name = "recurring_payments"
version = "0.1.0"
edition = "2021"
publish = false

[dependencies]
solana-program = "*"
spl-token = { version = "*", default-features = false, features = ["no-entrypoint"] }
thiserror = "*"
num-derive = "*"
num-traits = "*"
arrayref = "*"
