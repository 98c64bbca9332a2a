[package]
name = "gromnie_client"
version = "0.1.0"
edition = "2021"
publish = false

[dependencies]
asheron-rs = "0.2"
rand = "0.9"
rand_isaac = "0.4"
serde = { version = "1", features = ["derive"] }
serde_json = "1"
toml = "0.9"
tokio = { version = "1", features = ["full"] }
clap = { version = "4", features = ["derive"] }
directories = "6"
tracing = "0.1"
tracing-subscriber = { version = "0.3", features = ["env-filter"] }
