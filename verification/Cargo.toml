[package]
name = "dbus_futures"
version = "0.1.0"
edition = "2021"
publish = false

[dependencies]
futures = "0.3"
dbus = { version = "0.9", features = ["vendored"] }
