[package]
name = "astro_hash"
version = "0.1.0"
edition = "2021"
publish = false

[dependencies]
chacha20 = "0.9"
fnv = "1"
rc4 = "0.1"
sha2 = "0.10"
siphasher = "*"
suffix_array = "*"
xxhash-rust = { version = "0.8", features = ["xxh3"] }
