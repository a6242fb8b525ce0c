[package]
name = "world_builder"
version = "0.1.0"
edition = "2021"
publish = false

[dependencies]
legion = "=0.2.4"
