[package]
name = "class_literal_property_style"
version = "0.1.0"
edition = "2021"
publish = false

[dependencies]
serde_json = "1"
