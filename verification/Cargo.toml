[package]
name = "markdown_parser"
version = "0.1.0"
edition = "2021"
publish = false

[dependencies]
entities = "*"
parserc = "*"
serde = { version = "*", features = ["derive"] }
thiserror = "*"
