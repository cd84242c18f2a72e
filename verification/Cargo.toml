[package]
name = "glrnvim"
version = "1.5.0"
edition = "2021"
publish = false

[dependencies]
dirs = "*"
env_logger = "*"
log = "*"
rust-ini = "*"
serde = { version = "*", features = ["derive"] }
serde_yaml = "*"
shellexpand = "*"
sysinfo = "*"
tempfile = "*"
toml_edit = "*"
which = "*"
