[package]
name = "git_sync"
version = "0.1.0"
edition = "2021"
publish = false

[dependencies]
git2 = "*"
x509-parser = "*"
tempfile = "3"
flutter_rust_bridge = "2"
