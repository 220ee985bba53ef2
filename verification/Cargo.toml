[package]
name = "yam"
version = "0.1.0"
edition = "2021"
publish = false

[dependencies]
anyhow = "1"
clap = { version = "4", features = ["derive"] }
serde = { version = "1", features = ["derive"] }
tera = { version = "1", default-features = false }
thiserror = "*"
tree-sitter = "*"
tree-sitter-yaml = "*"
