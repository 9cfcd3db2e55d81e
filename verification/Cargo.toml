[package]
name = "bevy_jam_tree"
version = "0.1.0"
edition = "2021"
publish = false

[dependencies]
bevy = { version = "0.14", default-features = false }
bevy_prng = { version = "0.7", features = ["wyrand"] }
bevy_rand = { version = "0.7", features = ["wyrand"] }
itertools = "0.13"
rand = "0.8"
rand_core = "0.6"
