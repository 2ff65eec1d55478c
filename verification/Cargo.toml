[package]
name = "dotzo"
version = "0.1.0"
edition = "2021"
publish = false

[dependencies]
relative-path = "*"
serde = { version = "1", features = ["derive"] }
serde_json = "1"
serde_yaml = "0.9"
thiserror = "*"
anyhow = "1"
log = "0.4"
fern = "*"
chrono = "*"
colored = "*"
clap = { version = "4", features = ["derive"] }
clap-verbosity-flag = "*"
inquire = "*"
dirs = "*"
