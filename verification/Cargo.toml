[package]
name = "wasm2cretonne"
version = "0.1.0"
edition = "2021"
publish = false

[dependencies]
wasmparser = "<0.15"
byteorder = "1.5.0"
region = "*"
docopt = "*"
serde = { version = "*", features = ["derive"] }
serde_derive = "*"
tempdir = "*"
term = "*"
