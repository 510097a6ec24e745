[package]
name = "aedat4"
version = "0.1.0"
edition = "2021"
publish = false

[dependencies]
roxmltree = "*"
lz4 = "*"
zstd = "*"
thiserror = "*"

[dev-dependencies]
flatbuffers = "*"
