[package]
name = "flvmux"
version = "0.1.0"
edition = "2021"
publish = false

[dependencies]
rand = "0.8"
rml_rtmp = "*"
rml_amf0 = "*"
tokio = { version = "1", features = ["rt-multi-thread", "net", "io-util", "io-std", "sync", "macros"] }
