[package]
name = "bkmt"
version = "0.1.0"
edition = "2021"
publish = false

[dependencies]
serde = { version = "=1.0.229", features = ["derive"] }
serde_json = "=1.0.154"
url = "=2.5.8"
semver = "=1.0.28"
clap = { version = "=4.6.7", features = ["derive"] }
tokio = { version = "=1.54.1", features = ["rt-multi-thread", "macros"] }
directories = "=6.0.0"
tempfile = "=3.27.0"
fs2 = "=0.4.3"
libc = "=0.2.191"
cap-std = "=4.0.3"
cap-fs-ext = "=4.0.3"
reqwest = { version = "=0.12.28", default-features = false, features = ["json", "rustls-tls"] }
bkmsa-core = "=0.2.2"
bkmsa-agent = { version = "=0.2.2", features = ["native-client"] }
