[package]
name = "pyrth"
version = "0.1.0"
edition = "2021"
publish = false

[dependencies]
csv = "1"
ndarray = "0.16"
num-complex = "0.4"
rand = "0.8"
rand_distr = "0.4"
serde = { version = "1", features = ["derive"] }
thiserror = "2"
