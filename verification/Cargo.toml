[package]
name = "rt_new"
version = "0.1.0"
edition = "2021"
publish = false

[dependencies]
float-cmp = "*"
indicatif = "*"
rayon = "*"
serde = { version = "*", features = ["derive"] }
serde_yaml = "*"
