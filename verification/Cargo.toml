[package]
name = "on_the_gpu"
version = "0.1.0"
edition = "2021"
publish = false

[dependencies]
anyhow = "1"
async-compression = { version = "0.4", features = ["tokio", "zstd"] }
chrono = "0.4"
clap = { version = "4", features = ["derive"] }
nix = { version = "0.29", features = ["process"] }
tokio = { version = "1", features = ["rt", "io-util", "io-std", "fs", "process", "macros"] }
tokio-pipe = "0.2"
