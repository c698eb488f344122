[package]
name = "rca"
version = "0.1.0"
edition = "2021"
publish = false

[dependencies]
evercrypt = "=0.0.11"
chacha20poly1305 = "*"
sha2 = "*"
rand = "=0.8.8"
