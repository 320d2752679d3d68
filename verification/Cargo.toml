[package]
name = "mshio"
version = "0.4.2"
edition = "2021"
publish = false

[dependencies]
nom = { version = "=5.1.3", default-features = false, features = ["std"] }
num-traits = "=0.2.19"
thiserror = "=1.0.69"
