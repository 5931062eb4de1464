[package]
name = "minisql"
version = "0.1.0"
edition = "2021"
publish = false

[dependencies]
bitcode = "0.6"
chrono = "0.4"
serde_json = "1"
sqlparser = "0.43"
