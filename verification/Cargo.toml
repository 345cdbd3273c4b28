[package]
name = "scarb_registry"
version = "0.1.0"
edition = "2021"
publish = false

[dependencies]
anyhow = "1"
async-trait = "0.1"
cairo-lang-formatter = "*"
camino = "1"
scarb-ui = "*"
semver = "1"
serde = { version = "1", features = ["derive"] }
sha2 = "0.10"
toml = "0.8"
tracing = "0.1"
url = "2"
