[package]
name = "rez_tools"
version = "0.1.0"
edition = "2021"
publish = false

[dependencies]
clap = "4"
dirs = "*"
env_logger = "*"
flate2 = "1"
futures-util = "0.3"
glob = "*"
log = "0.4"
regex = "1"
reqwest = { version = "*", default-features = false, features = ["stream", "rustls-tls"] }
serde = { version = "1", features = ["derive"] }
serde_json = "1"
serde_yaml = "*"
tar = "*"
tokio = { version = "1", features = ["fs", "io-util", "macros", "process", "rt-multi-thread", "time"] }
toml = "*"
zip = { version = "*", default-features = false, features = ["deflate"] }
