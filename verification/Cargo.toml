[package]
name = "bip37_bloom"
version = "0.1.0"
edition = "2021"
publish = false

[dependencies]
bitvec = "1"
murmur3 = "0.5"
thiserror = "1"
