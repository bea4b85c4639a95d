[package]
name = "ds_bridge"
version = "0.1.0"
edition = "2021"
publish = false

[dependencies]
byteorder = "*"
mio = { version = "*", features = ["net", "os-poll"] }
