[package]
name = "os"
version = "0.1.0"
edition = "2021"
publish = false

[dependencies]
x86_64 = { version = "=0.15.5", default-features = false, features = ["instructions"] }
lazy_static = "*"
spin = "*"
uart_16550 = "*"
volatile = "0.2"
