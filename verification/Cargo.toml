[package]
name = "blue_jni"
version = "0.1.0"
edition = "2021"
publish = false

[dependencies]
bluer = { version = "=0.17.4", features = ["bluetoothd"] }
dbus = { version = "*", features = ["vendored"] }
tokio = { version = "=1.53.2", features = ["rt-multi-thread", "sync", "time", "macros"] }
futures = "=0.3.34"
jni = "=0.21.1"
log = "=0.4.34"
env_logger = "=0.11.11"
lazy_static = "=1.5.1"
