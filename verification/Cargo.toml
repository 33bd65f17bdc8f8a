[package]
name = "canfd"
version = "0.1.0"
edition = "2021"
publish = false

[dependencies]
imxrt-ral = { version = "0.4", features = ["imxrt1062"] }
