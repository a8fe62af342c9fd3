[package]
name = "sdk_core"
version = "0.1.0"
edition = "2021"
publish = false

[dependencies]
futures = "0.3"
tokio = { version = "1", features = ["rt"] }
tracing = "0.1"
wasm-bindgen-futures = "0.4"
