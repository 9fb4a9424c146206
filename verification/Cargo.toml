[package]
name = "loopstation_core_stm32"
version = "0.1.0"
edition = "2021"
publish = false

[dependencies]
heapless = { version = "0.8", features = ["serde"] }
serde = { version = "1", default-features = false, features = ["derive"] }
serde-json-core = "0.6"
micromath = "2"
log = "0.4"
embedded-hal = "0.2"
embassy-time = { version = "0.3", features = ["std"] }
