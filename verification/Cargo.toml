[package]
name = "stream_parser"
version = "0.1.0"
edition = "2021"
publish = false

[dependencies]
nom = "7"
rand = "0.8"
rand_chacha = "0.3"
async-stream = "0.3"
futures-lite = "2"
