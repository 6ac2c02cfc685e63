[package]
name = "treadmill_ble"
version = "0.1.0"
edition = "2021"
publish = false

[dependencies]
bluer = { version = "*", features = ["bluetoothd"] }
clap = { version = "*", features = ["derive"] }
env_logger = "*"
futures = "*"
tokio = { version = "*", features = ["rt-multi-thread", "macros", "time"] }

[dev-dependencies]
uuid = "*"
