[package]
name = "sail"
version = "0.1.0"
edition = "2021"
publish = false

[dependencies]
e57 = "0.11.13"
serde_json = "1.0.154"
serde = { version = "1.0.229", features = ["derive"] }
thiserror = "2.0.21"
itertools = "0.14.0"
ratatui = "0.29.0"
unicode-width = "0.2.0"
polars = { version = "0.55.2", default-features = false, features = ["lazy", "csv", "fmt"] }
