[package]
name = "bucketprobe"
version = "0.1.0"
edition = "2021"
publish = false

[dependencies]
clap = { version = "*", features = ["derive"] }
rayon = "*"
reqwest = { version = "*", default-features = false, features = ["blocking"] }
