[package]
name = "d9s"
version = "0.1.0"
edition = "2021"
publish = false

[dependencies]
async-trait = "*"
chrono = "0.4"
crossterm = "*"
dirs = "*"
env_logger = "*"
graphql_client = { version = "*", default-features = false }
log = "*"
ratatui = "*"
reqwest = { version = "*", default-features = false, features = ["json"] }
serde = { version = "*", features = ["derive"] }
serde_json = "*"
tokio = { version = "*", features = ["full"] }
toml = "*"
