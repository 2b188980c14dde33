[package]
name = "latera_rust"
version = "0.1.0"
edition = "2021"
publish = false

[dependencies]
dirs = "=7.0.0"
env_logger = "=0.11.11"
log = "=0.4.34"
notify = "=8.2.0"
once_cell = "=1.21.4"
thiserror = "=2.0.21"

[dev-dependencies]
tempfile = "3"
