[package]
name = "nyaterm"
version = "0.1.0"
edition = "2021"
publish = false

[dependencies]
russh = { version = "*", default-features = false, features = ["ring"] }
tokio = { version = "1", features = ["fs", "io-util", "macros", "net", "rt", "sync", "time"] }
tracing = "0.1"
uuid = { version = "1", features = ["v4"] }
