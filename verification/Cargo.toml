[package]
name = "presence_bridge"
version = "0.1.0"
edition = "2021"
publish = false

[dependencies]
anyhow = "*"
dbus = "*"
dbus-tokio = "*"
discord-presence = "*"
env_logger = "*"
futures = "*"
log = "*"
stream-cancel = "*"
tokio = { version = "*", features = ["macros", "rt-multi-thread", "sync", "time"] }
