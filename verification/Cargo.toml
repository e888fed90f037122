[package]
name = "rust_os"
version = "0.1.0"
edition = "2021"
publish = false

[dependencies]
bootloader = { version = "0.9", features = ["map_physical_memory"] }
x86_64 = { version = "0.14", default-features = false, features = ["instructions"] }
crossbeam-queue = { version = "0.3", default-features = false, features = ["alloc"] }
pc-keyboard = { version = "0.7" }
futures-util = { version = "0.3", default-features = false, features = ["alloc"] }
conquer-once = { version = "0.2", default-features = false }
