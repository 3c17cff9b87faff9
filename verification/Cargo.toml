[package]
name = "safepickle"
version = "0.1.0"
edition = "2021"
publish = false

[dependencies]
byteorder = "1"
itertools = "*"
clap = { version = "4", features = ["derive"] }
zip = { version = "*", default-features = false }
eyre = "0.6"
