[package]
name = "fsevents_bridge"
version = "0.1.0"
edition = "2021"
publish = false

[dependencies]
fsevent-sys = "4"
napi = { version = "2", features = ["napi4"] }
napi-derive = "2"
