[package]
name = "jarvis_kernel"
version = "0.2.0"
edition = "2021"
publish = false

[dependencies]
x86_64 = { version = "=0.15.5", default-features = false, features = ["instructions"] }
lazy_static = "=1.5.1"
spinning_top = "=0.3.1"
chacha20 = "=0.9.1"
chacha20poly1305 = "=0.10.1"
x25519-dalek = { version = "=2.0.1", features = ["static_secrets"] }
libm = "0.2"
rand_chacha = "0.3"
uart_16550 = "0.3"
