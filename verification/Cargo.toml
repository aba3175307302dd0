[package]
name = "renderer"
version = "0.1.0"
edition = "2021"
publish = false

[dependencies]
image = { version = "0.24", default-features = false, features = ["gif", "png"] }
rand = "0.8"
chrono = "0.4"
serde = { version = "1", features = ["derive"] }
serde_json = "1"
tokio = { version = "1", features = ["full"] }
async-trait = "0.1"
log = "0.4"
pretty_env_logger = "0.4"
thiserror = "1"
anyhow = "1"
css-color-parser = "0.1"
reqwest = { version = "0.11", default-features = false }
rusttype = "0.9"
structopt = "0.3"
rumqttc = "*"
embedded-graphics = "0.7"
embedded-graphics-simulator = "0.3"
