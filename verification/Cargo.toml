[package]
name = "steam_engineering_toolbox"
version = "0.1.0"
edition = "2021"
publish = false

[dependencies]
clap = { version = "*", features = ["derive"] }
serde = { version = "*", features = ["derive"] }
seuif97 = "*"
sys-locale = "*"
toml = "*"
