[package]
name = "rumble"
version = "0.1.0"
edition = "2021"
publish = false

[dependencies]
byteorder = "1"
openssl = "0.10"
protobuf = "2"
