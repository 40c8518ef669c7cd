[package]
name = "kosatka"
version = "0.1.0"
edition = "2021"
publish = false

[dependencies]
bollard = "=0.21.1"
cursive = { version = "=0.21.1", features = ["toml"] }
cursive_table_view = "=0.15.0"
dirs = "=7.0.0"
tokio = { version = "=1.53.2", features = ["rt-multi-thread"] }
