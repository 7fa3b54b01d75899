[package]
name = "loco"
version = "0.1.0"
edition = "2021"
publish = false

[dependencies]
bitvec = { version = "=1.1.1", default-features = false }
heapless = "=0.8.0"
embedded-hal = "=1.0.0-alpha.6"
embedded-time = "=0.12.1"
nb = "=1.1.0"
embedded-nal = "=0.9.0"
std-embedded-nal = "=0.4.0"
