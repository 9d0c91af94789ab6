[package]
name = "webshot"
version = "0.1.0"
edition = "2021"
publish = false

[dependencies]
futures = "*"
thirtyfour = "*"
tokio = { version = "*", features = ["rt", "rt-multi-thread", "macros"] }
