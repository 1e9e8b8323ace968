[package]
name = "bluster"
version = "0.1.0"
edition = "2021"
publish = false

[dependencies]
futures = "0.3"
dbus = { version = "0.9", features = ["vendored"] }
dbus-tokio = "0.7"
dbus-crossroads = "0.5"
tokio = { version = "1", features = ["rt", "time"] }
