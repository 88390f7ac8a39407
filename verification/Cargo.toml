[package]
name = "filegen"
version = "0.1.0"
edition = "2021"
publish = false

[dependencies]
rand = "0.8"
tokio = { version = "1", features = ["rt-multi-thread", "macros", "fs", "io-util"] }
clap = { version = "4", features = ["cargo"] }
fs_extra = "1"
futures = "0.3"
