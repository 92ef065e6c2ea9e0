[package]
name = "meta_export"
version = "0.1.0"
edition = "2021"
publish = false

[dependencies]
anyhow = "1"
byteorder = "1"
ron = "0.6"
serde = { version = "1", features = ["derive"] }
structopt = "0.3"
