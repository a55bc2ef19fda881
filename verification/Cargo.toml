[package]
name = "spirv_compiler"
version = "0.1.0"
edition = "2021"

[dependencies]
shaderc = "0.8"
