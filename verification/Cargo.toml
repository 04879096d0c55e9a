[package]
name = "btman"
version = "0.6.52"
edition = "2021"
publish = false

[dependencies]
bluer = { version = "*", features = ["bluetoothd"] }
dbus = { version = "*", features = ["vendored"] }
gtk4 = "*"
libadwaita = { version = "*", features = ["v1_4"] }
glib = "*"
tokio = { version = "1", features = ["rt-multi-thread", "macros", "time"] }
tokio-util = "*"
futures = "0.3"
async-channel = "*"
lazy_static = "1"
