[package]
name = "prop_amm_engine"
version = "0.1.0"
edition = "2021"
publish = false

[dependencies]
anyhow = "1"
clap = { version = "4", features = ["derive"] }
libloading = "0.8"
rand = "0.8"
rand_chacha = "0.3"
rand_distr = "0.4"
rayon = "1"
serde_json = "1"
