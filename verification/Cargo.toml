[package]
name = "gowiners"
version = "0.1.0"
edition = "2021"
publish = false

[dependencies]
anyhow = "1"
bpaf = "*"
colored = "*"
serde = { version = "1", features = ["derive"] }
toml = "*"
