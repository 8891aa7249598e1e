[package]
name = "rml_rtmp"
version = "0.1.0"
edition = "2021"
publish = false

[dependencies]
byteorder = "1"
rml_amf0 = "*"

[dev-dependencies]
bytes = "1"
rand = "*"
