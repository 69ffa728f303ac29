[package]
name = "fulcitt_pos"
version = "0.1.0"
edition = "2021"
publish = false

[dependencies]
chrono = { version = "0.4", features = ["serde"] }
uuid = { version = "1", features = ["v4", "serde"] }
serde = { version = "1", features = ["derive"] }
serde_json = "1"
escpos = { version = "0.20", features = ["usb"] }
sqlx = { version = "0.8", default-features = false, features = ["sqlite", "runtime-tokio", "chrono", "uuid", "migrate"] }
thiserror = "2"
log = "0.4"
rusb = "0.9"
rust_xlsxwriter = "*"
fluent-bundle = "0.16"
unic-langid = { version = "0.9", features = ["macros"] }
dotenvy = "0.15"
