[package]
name = "tiny_orm"
version = "0.1.0"
edition = "2021"
publish = false

[dependencies]
proc-macro2 = "1"
quote = "1"
syn = { version = "2", features = ["full", "extra-traits"] }
serde = "1"
sqlx = { version = "0.8", default-features = false }
