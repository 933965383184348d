[package]
name = "steam_controller_dsu"
version = "0.1.0"
edition = "2021"
publish = false

[dependencies]
clap = { version = "=4.6.7", features = ["derive"] }
ctrlc = "=3.5.2"
env_logger = "=0.11.11"
hidapi = { version = "=2.6.7", default-features = false, features = ["linux-native-basic-udev"] }
libc = "=0.2.191"
log = "=0.4.35"
thiserror = "=2.0.21"
