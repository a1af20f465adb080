[package]
name = "presentink"
version = "0.1.0"
edition = "2021"
publish = false

[dependencies]
image = "*"
uuid = { version = "*", features = ["v4"] }
serde = { version = "*", features = ["derive"] }
serde_json = "*"
arboard = "*"
enigo = "*"
auto-launch = "*"
xcap = "*"
