[package]
name = "codegen"
version = "0.1.0"
edition = "2021"
publish = false

[dependencies]
Inflector = "*"
serde = { version = "*", features = ["derive"] }
serde_json = "*"
