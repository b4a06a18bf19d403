[package]
name = "lock_ladder"
version = "0.1.0"
edition = "2021"
publish = false

[dependencies]
chrono = "*"
handlebars = "*"
serde_json = "*"
subxt = "*"
tokio = { version = "*", features = ["macros", "rt-multi-thread"] }
