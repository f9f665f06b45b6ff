[package]
name = "qmk_notifier"
version = "0.1.0"
edition = "2021"
publish = false

[dependencies]
clap = "=4.6.7"
dirs = "=7.0.0"
hidapi = { version = "=2.6.7", default-features = false, features = ["linux-native-basic-udev"] }
toml = "=1.1.8"
