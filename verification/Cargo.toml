[package]
name = "runtime"
version = "0.1.0"
edition = "2021"
publish = false

[dependencies]
base64 = "=0.21.7"
byteorder = "1"
rand = "=0.8.5"
uuid = { version = "1", features = ["v4"] }
urlencoding = "2"
serde = { version = "1", features = ["derive"] }
serde_json = "1"
chrono = "0.4"
anyhow = "1"
tokio = { version = "1", features = ["full"] }
reqwest = { version = "0.12", default-features = false, features = ["json", "rustls-tls", "gzip", "http2"] }
structopt = "0.3"
num_cpus = "1"
once_cell = "1"
futures = "0.3"
futures-util = "0.3"
dashmap = "*"
rayon = "1"
indicatif = "0.17"
flate2 = "1"
tar = "0.4"
zip = { version = "*", default-features = false, features = ["deflate"] }
