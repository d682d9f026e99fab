[package]
name = "sombra_service"
version = "0.1.0"
edition = "2021"
publish = false

[dependencies]
dunce = "1"
rand = "0.8"
state = "*"
windows-service = "*"
