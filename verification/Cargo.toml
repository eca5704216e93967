[package]
name = "constructor"
version = "0.1.0"
edition = "2021"
publish = false

[dependencies]
glium = "0.32"
glm = "0.2"
