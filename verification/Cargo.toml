[package]
name = "proximum_simulation"
version = "0.1.0"
edition = "2021"
publish = false

[dependencies]
rand = "*"
rand_distr = "*"
nalgebra = "*"
adskalman = "*"
h3o = "*"
nav-types = "*"
serde = { version = "*", features = ["derive"] }
serde_json = "*"
log = "*"
