[package]
name = "happy_garden"
version = "0.1.0"
edition = "2021"
publish = false

[dependencies]
osal-rs = { version = "=1.4.0", default-features = false, features = ["posix"] }
osal-rs-serde = { version = "=1.4.0", features = ["derive"] }
at-parser-rs = { version = "=0.5.2", default-features = false, features = ["posix"] }
