[package]
name = "simple_file_logger"
version = "0.1.0"
edition = "2021"
publish = false

[dependencies]
flexi_logger = "*"
dirs = "*"
serde = { version = "*", features = ["derive"] }
clap = { version = "*", features = ["derive"] }
