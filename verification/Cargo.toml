[package]
name = "vhost_user_gpu"
version = "0.1.0"
edition = "2021"
publish = false

[dependencies]
vm-memory = "*"
