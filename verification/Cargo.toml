[package]
name = "sapphillon_core"
version = "0.1.0"
edition = "2021"
publish = false

[dependencies]
deno_core = "*"
prost-types = "*"
