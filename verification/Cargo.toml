[package]
name = "kernel"
version = "0.1.0"
edition = "2021"
publish = false

[dependencies]
x86_64 = { version = "=0.14.13", default-features = false, features = ["instructions"] }
pc-keyboard = "=0.7.0"
pic8259 = "=0.10.4"
uart_16550 = "=0.2.19"
bootloader_api = "=0.11.17"
noto-sans-mono-bitmap = { version = "=0.2.0", features = ["unicode-specials"] }
spin = "=0.9.9"
lazy_static = "=1.5.1"
