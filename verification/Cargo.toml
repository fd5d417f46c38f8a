[package]
name = "wiretrap"
version = "0.1.0"
edition = "2021"
publish = false

[dependencies]
tokio = { version = "1", features = ["macros", "rt-multi-thread", "net", "io-util", "process"] }
tokio-native-tls = "0.3"
