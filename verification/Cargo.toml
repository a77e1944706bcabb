[package]
name = "bundle_licenses_lib"
version = "0.1.0"
edition = "2021"
publish = false

[dependencies]
anyhow = "*"
cargo_metadata = "*"
clap = { version = "*", features = ["derive"] }
env_logger = "*"
git-version = "*"
home = "*"
log = "*"
regex = "*"
serde = { version = "*", features = ["derive"] }
serde_json = "*"
serde_yaml = "*"
slug = "*"
spdx = "*"
strum = { version = "*", features = ["derive"] }
thiserror = "*"
toml = "*"
