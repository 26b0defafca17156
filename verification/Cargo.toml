[package]
name = "sage_data_bridge"
version = "0.1.0"
edition = "2021"
publish = false

[dependencies]
chrono = "0.4"
argon2 = "0.5"
serde = { version = "1", features = ["derive"] }
serde_json = "1"
uuid = { version = "1", features = ["v4"] }
tiberius = { version = "0.12", default-features = false, features = ["tds73", "rustls", "chrono", "rust_decimal", "sql-browser-tokio"] }
tokio = { version = "1", features = ["rt-multi-thread", "net", "time", "sync", "macros"] }
tokio-util = { version = "0.7", features = ["compat"] }
futures-util = "0.3"
rust_decimal = "1"
hex = "0.4"
