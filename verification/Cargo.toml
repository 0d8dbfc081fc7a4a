[package]
name = "rusty_root_io"
version = "0.1.0"
edition = "2021"
publish = false

[dependencies]
flate2 = "*"
lz4_flex = "*"
zstd = "*"
serde = { version = "*", features = ["derive"] }
