[package]
name = "gh_notes"
version = "0.1.0"
edition = "2021"
publish = false

[dependencies]
anyhow = "1"
async-trait = "0.1"
clap = { version = "3", features = ["env"] }
hubcaps-ex = "*"
libcli-rs = "*"
log = "0.4"
maplit = "1"
pretty_env_logger = "*"
serde = { version = "1", features = ["derive"] }
serde_yaml = "*"
tera = { version = "1", default-features = false }
tokio = { version = "1", features = ["full"] }
tokio-stream = "*"
