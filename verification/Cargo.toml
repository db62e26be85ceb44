[package]
name = "prql_ast"
version = "0.1.0"
edition = "2021"
publish = false

[dependencies]
anyhow = "1.0"
enum-as-inner = "0.5"
itertools = "0.10"
serde = { version = "1.0", features = ["derive"] }
strum = { version = "0.24", features = ["derive"] }
