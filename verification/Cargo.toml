[package]
name = "afterburner_wasi"
version = "0.1.0"
edition = "2021"
publish = false

[dependencies]
anyhow = "1"
atomic-wait = "1"
axum = { version = "=0.7.9", features = ["ws"] }
base64 = "=0.22.1"
futures-util = "0.3"
hex = "=0.4.3"
http-body-util = "0.1"
hyper = { version = "1", features = ["full"] }
hyper-util = { version = "0.1", features = ["full"] }
kovan-channel = "=0.1.22"
kovan-map = "=0.1.22"
libc = "0.2"
memmap2 = "0.9"
serde_json = "1"
socket2 = { version = "0.5", features = ["all"] }
tokio = { version = "1", features = ["full"] }
wasmtime = "=36.0.20"
wasmtime-wasi = "=36.0.20"

[dev-dependencies]
wat = "1"
