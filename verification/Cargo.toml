[package]
name = "xconn"
version = "0.1.0"
edition = "2021"
publish = false

[dependencies]
tungstenite = "*"
url = "*"
mio = { version = "*", features = ["net", "os-poll"] }
