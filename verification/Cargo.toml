[package]
name = "latency_link"
version = "0.1.0"
edition = "2021"
publish = false

[dependencies]
bincode = "1.3"
chrono = "0.4"
egui = { version = "0.29", default-features = false }
jni = "0.21"
ndk-context = "0.1"
serde = { version = "1", features = ["derive"] }
