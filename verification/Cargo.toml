[package]
name = "nanocodex"
version = "0.1.0"
edition = "2021"
publish = false

[dependencies]
async-trait = "=0.1.92"
futures-util = "=0.3.34"
reqwest = { version = "=0.12.28", default-features = false }
schemars = "=0.8.22"
serde = { version = "=1.0.229", features = ["derive"] }
serde_json = { version = "=1.0.154", features = ["raw_value"] }
thiserror = "=2.0.21"
tokio = { version = "=1.54.1", features = ["macros", "rt", "sync", "time"] }
tokio-tungstenite = "=0.30.0"
tracing = "=0.1.44"
uuid = { version = "=1.29.0", features = ["v7"] }
js-sys = "*"
tower = { version = "*", features = ["util"] }
wasm-bindgen = "*"
wasm-bindgen-futures = "*"
web-time = "*"
