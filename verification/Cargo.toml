[package]
name = "playwith"
version = "0.1.0"
edition = "2021"
publish = false

[dependencies]
bluer = { version = "*", features = ["bluetoothd", "l2cap", "rfcomm"] }
chrono = "0.4"
env_logger = "0.9"
log = "0.4"
structopt = "0.3"
tokio = { version = "1", features = ["macros", "rt"] }
