[package]
name = "blight"
version = "0.1.0"
edition = "2021"
publish = false

[dependencies]
adblock = { version = "=0.13.5", features = ["content-blocking"] }
axum = { version = "=0.8.9", features = ["ws"] }
base64 = "=0.23.1"
clap = { version = "=4.6.7", features = ["derive"] }
futures-util = "=0.3.34"
hickory-resolver = "=0.26.3"
js-sys = "=0.3.107"
memory-stats = "=1.2.0"
mimalloc = "=0.1.52"
moka = { version = "=0.12.16", features = ["future"] }
num-traits = "=0.2.19"
rand = "=0.10.3"
reqwest = { version = "=0.13.5", default-features = false, features = ["stream"] }
rmp-serde = "=1.3.1"
serde = { version = "=1.0.229", features = ["derive"] }
serde_json = "=1.0.154"
serde-wasm-bindgen = "=0.6.5"
sync_wrapper = "=1.0.2"
tokio = { version = "=1.54.1", features = ["full"] }
tokio-tungstenite = "=0.30.0"
tokio-websockets = "=0.13.3"
tower = { version = "=0.5.3", features = ["util"] }
tower-http = { version = "=0.7.1", features = ["cors", "fs", "compression-full"] }
tracing = "=0.1.44"
tracing-subscriber = { version = "=0.3.23", features = ["env-filter"] }
wasm-bindgen = "=0.2.130"
wildmatch = "=2.7.0"
