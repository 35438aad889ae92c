[package]
name = "rumiland"
version = "0.1.0"
edition = "2021"
publish = false

[dependencies]
bcrypt = "*"
chrono = "*"
parsidate = "*"
uuid = { version = "*", features = ["v4"] }
