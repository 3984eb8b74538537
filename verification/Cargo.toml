[package]
name = "textquest_dll"
version = "0.1.0"
edition = "2021"
publish = false

[dependencies]
thiserror = "2"
zeroize = "1"
