[package]
name = "emp"
version = "0.1.0"
edition = "2021"
publish = false

[dependencies]
anyhow = "1"
clap = { version = "4", features = ["derive"] }
lofty = "*"
postcard = { version = "1", features = ["alloc"] }
rodio = "*"
serde = { version = "1", features = ["derive"] }
souvlaki = "*"
tokio = { version = "1", features = ["rt-multi-thread", "macros", "sync", "time", "net", "io-util"] }
