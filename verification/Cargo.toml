[package]
name = "dexrs"
version = "0.1.0"
edition = "2021"
publish = false

[dependencies]
adler32 = "1"
varint-simd = "*"
memmap2 = "*"
thiserror = "*"
