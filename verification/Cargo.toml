[package]
name = "rootfs_pipeline"
version = "0.1.0"
edition = "2021"
publish = false

[dependencies]
clap = { version = "3.2", features = ["derive"] }
dircpy = "0.3"
