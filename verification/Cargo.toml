[package]
name = "gamemath"
version = "0.1.0"
edition = "2021"

[dependencies]
bytemuck = "1"
