[package]
name = "car_header"
version = "0.1.0"
edition = "2021"
publish = false

[dependencies]
cxx = "*"
libipld-cbor = "*"
libipld-core = "*"
