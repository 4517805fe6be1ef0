[package]
name = "statbeacon"
version = "0.1.0"
edition = "2021"
publish = false

[dependencies]
chrono = "*"
reqwest = { version = "*", default-features = false, features = ["json"] }
serde = { version = "*", features = ["derive"] }
sysinfo = "*"
tokio = { version = "*", features = ["rt-multi-thread", "macros", "time"] }
toml = "*"
