[package]
name = "protoglot"
version = "0.1.0"
edition = "2021"
publish = false

[dependencies]
serde_json = "*"
rcgen = "*"
flate2 = "*"
tar = "*"
rand = "*"
tokio = { version = "*", features = ["full"] }
hyper = { version = "*", features = ["full"] }
hyper-util = { version = "*", features = ["full"] }
http-body-util = "*"
bytes = "*"
rustls = { version = "*", default-features = false, features = ["ring", "std", "logging", "tls12"] }
tokio-rustls = { version = "*", default-features = false, features = ["ring", "logging", "tls12"] }
tokio-stream = { version = "*", features = ["net"] }
tokio-util = { version = "*", features = ["io"] }
async-compression = { version = "*", features = ["tokio", "gzip"] }
reqwest = { version = "*", default-features = false, features = ["rustls-tls"] }
chrono = "*"
uuid = { version = "*", features = ["v4"] }
clap = { version = "*", features = ["derive"] }
serde = { version = "*", features = ["derive"] }
serde_json5 = "*"
directories = "*"
human_bytes = "*"
rustls-native-certs = "*"
