[package]
name = "script_eval"
version = "0.1.0"
edition = "2021"
publish = false

[dependencies]
getrandom = { version = "=0.2.17", features = ["custom"] }
serde = { version = "=1.0.229", features = ["derive"] }
serde_json = "=1.0.151"
rmp-serde = "=1.3.1"
rmpv = { version = "=1.3.1", features = ["with-serde"] }
num-traits = "=0.2.19"
rustpython-vm = "=0.3.1"
polywrap-wasm-rs = "=0.12.2"
