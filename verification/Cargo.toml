[package]
name = "secs_transport"
version = "0.1.0"
edition = "2021"
publish = false

[dependencies]
sansio = "*"
serde = { version = "1", features = ["derive"] }
serde_json = "1"
humantime-serde = "*"
log = "0.4"
wasm-bindgen = "*"
js-sys = "*"
wasm-bindgen-futures = "*"
