[package]
name = "memory_view"
version = "0.1.0"
edition = "2021"
publish = false

[dependencies]
iced = { version = "=0.14.0", default-features = false, features = ["image-without-codecs", "advanced", "tiny-skia", "x11", "thread-pool"] }
memmap2 = "=0.9.12"
num-traits = "=0.2.19"
tracing = "=0.1.44"
tracing-subscriber = "=0.3.23"
