[package]
name = "rust_bus"
version = "0.1.0"
edition = "2021"
publish = false

[dependencies]
twox-hash = { version = "2", default-features = false, features = ["std", "xxhash3_64"] }
uuid = { version = "1", features = ["v7", "serde"] }
serde = { version = "1", features = ["derive"] }
serde_json = "1"
chrono = { version = "0.4", default-features = false, features = ["clock", "std", "serde"] }
rand = "*"
tokio = { version = "1", features = ["rt-multi-thread", "macros", "sync", "time"] }
futures = "0.3"
log = "0.4"
inventory = "0.3"
once_cell = "1"
sqlx = { version = "0.8", default-features = false, features = ["runtime-tokio", "postgres", "mysql", "chrono", "uuid", "json"] }
syn = { version = "2", features = ["full"] }
quote = "1"
proc-macro2 = "1"
