[package]
name = "ros2_teleop"
version = "0.1.0"
edition = "2021"
publish = false

[dependencies]
cdr = "*"
clap = { version = "4", features = ["derive"] }
crossterm = "*"
env_logger = "*"
log = "0.4"
serde = { version = "1", features = ["derive"] }
tokio = { version = "1", features = ["rt-multi-thread", "macros", "sync"] }
tokio-stream = "0.1"
zenoh = { version = "*", default-features = false }
