[package]
name = "spree"
version = "0.1.0"
edition = "2021"
publish = false

[dependencies]
aho-corasick = "=1.1.5"
clap = { version = "=4.6.7", features = ["derive"] }
i-slint-core = { version = "=1.18.1", default-features = false, features = ["svg"] }
serde = { version = "=1.0.229", features = ["derive"] }
slint = { version = "=1.18.1", default-features = false, features = ["std", "compat-1-2"] }
toml = "=1.1.8"
