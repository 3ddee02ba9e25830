[package]
name = "mondealy_splitter"
version = "0.1.0"
edition = "2021"
publish = false

[dependencies]
asr = "*"
bstr = "1"
bytemuck = { version = "1", features = ["derive"] }
