[package]
name = "mates"
version = "0.1.0"
edition = "2021"
publish = false

[dependencies]
vobject = "*"
email = "*"
uuid = { version = "*", features = ["v4"] }
atomicwrites = "*"
