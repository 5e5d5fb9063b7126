[package]
name = "desktop_automater"
version = "0.1.0"
edition = "2021"
publish = false

[dependencies]
log = "0.4"
rdev = "0.5"
shellexpand = "3"
tokio = { version = "1", features = ["fs", "rt", "rt-multi-thread"] }
xdg = "2"
