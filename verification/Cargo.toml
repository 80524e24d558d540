[package]
name = "jp"
version = "0.1.0"
edition = "2021"
publish = false

[dependencies]
unicode-width = "*"
rand = "0.8"
clap = { version = "4", features = ["derive"] }
tokio = { version = "1", features = ["rt-multi-thread", "macros", "time", "net", "sync"] }
serde = { version = "1", features = ["derive"] }
serde_json = "1"
reqwest = { version = "*", default-features = false, features = ["json"] }
axum = "*"
tower-http = { version = "*", features = ["fs"] }
