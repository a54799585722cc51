[package]
name = "ilo_config"
version = "0.1.0"
edition = "2021"
publish = false

[dependencies]
home = "*"
envy = "*"
serde = { version = "*", features = ["derive"] }
serde_json = "*"
thiserror = "*"

[dev-dependencies]
tempfile = "*"
fs-err = "*"
rustix = { version = "*", features = ["fs"] }
