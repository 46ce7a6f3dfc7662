[package]
name = "log_replay"
version = "0.1.0"
edition = "2021"
publish = false

[dependencies]
chrono = "0.4"
colored_json = "*"
serde_json = "1"
sqlformat = "0.2"
termcolor = "1"
