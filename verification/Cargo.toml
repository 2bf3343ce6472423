[package]
name = "shl_sqlx"
version = "0.1.0"
edition = "2021"
publish = false

[dependencies]
chrono = "0.4"
once_cell = "1"
proc-macro2 = "1"
quote = "1"
sqlx = { version = "0.8", default-features = false, features = ["postgres"] }
syn = { version = "2", features = ["full"] }
thiserror = "2"
uuid = { version = "1", features = ["v7"] }
