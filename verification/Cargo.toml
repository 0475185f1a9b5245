[package]
name = "spectrum_tui"
version = "0.1.0"
edition = "2021"
publish = false

[dependencies]
serde_json = "=1.0.151"
anyhow = "=1.0.104"
tokio = { version = "=1.53.2", features = ["rt-multi-thread", "macros", "sync", "time"] }
tokio-stream = "=0.1.19"
etcd-client = "=0.10.4"
ssh2 = "=0.9.6"
crossterm = "=0.29.0"
ndarray = "=0.17.2"
ndarray-npy = "=0.10.0"
expanduser = "=1.2.2"
