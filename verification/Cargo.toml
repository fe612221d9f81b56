[package]
name = "tmpl"
version = "0.1.0"
edition = "2021"
publish = false

[dependencies]
anyhow = "1"
clap = { version = "4", features = ["derive"] }
directories = "*"
minijinja = "2"
serde = { version = "1", features = ["derive"] }
toml = "*"
unicode-width = "*"

[dev-dependencies]
tempfile = "3"
