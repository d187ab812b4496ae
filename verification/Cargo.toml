[package]
name = "qubit_metadata"
version = "0.4.0"
edition = "2021"
publish = false

[dependencies]
qubit-value = "*"
qubit-datatype = "*"
num-bigint = "*"
bigdecimal = "*"
serde = { version = "1", features = ["derive"] }
serde_json = "1"
parse-display = "*"
