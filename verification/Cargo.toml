[package]
name = "devserver"
version = "0.1.0"
edition = "2021"
publish = false

[dependencies]
base64 = "0.13"
sha-1 = "0.8"
native-tls = "0.2"
notify = "4"
