[package]
name = "bs"
version = "0.1.0"
edition = "2021"
publish = false

[dependencies]
base64 = "0.13"
sha2 = "0.9"
serde_json = "1"
sodiumoxide = "0.2"
indicatif = "0.17"
num_cpus = "1"
rayon = "1"
structopt = "0.3"
