[package]
name = "csv2jsonl"
version = "0.1.0"
edition = "2021"
publish = false

[dependencies]
clap = { version = "3", features = ["derive"] }
csv = "1"
encoding_rs_io = "0.1"
indexmap = { version = "1", features = ["serde"] }
serde = "1"
serde_json = "1"
