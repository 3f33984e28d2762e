[package]
name = "fstools"
version = "0.1.0"
edition = "2021"
publish = false

[dependencies]
bytemuck = "1"
clap = { version = "4", features = ["derive"] }
futures-lite = "2"
oodle-sys = "0.2"
