[package]
name = "yeast"
version = "0.1.0"
edition = "2021"
publish = false

[dependencies]
regex = "=1.13.1"
chrono = { version = "=0.4.45", features = ["serde"] }
serde = { version = "=1.0.229", features = ["derive"] }
serde_json = "=1.0.154"
tokio = { version = "=1.54.1", features = ["rt-multi-thread", "macros", "time", "sync", "net", "io-util"] }
reqwest = { version = "=0.12.28", default-features = false, features = ["json", "cookies", "rustls-tls"] }
rustls = { version = "=0.23.46", default-features = false, features = ["std", "ring", "tls12"] }
rustls-native-certs = "=0.8.5"
uuid = { version = "=1.29.0", features = ["v4"] }
futures = "=0.3.34"
