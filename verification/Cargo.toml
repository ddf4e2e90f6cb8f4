[package]
name = "folco"
version = "0.1.0"
edition = "2021"
publish = false

[dependencies]
base64 = "0.22"
twemoji-assets = "*"
icon-sys = "*"
image = { version = "0.25", default-features = false, features = ["png"] }
resvg = { version = "*", default-features = false }
palette = { version = "0.7", default-features = false, features = ["std"] }
serde = { version = "1", features = ["derive"] }
serde_json = "1"
schemars = "0.8"
thiserror = "1"
directories = "5"
tokio = { version = "1", features = ["rt-multi-thread", "macros", "sync"] }
clap = { version = "4", features = ["derive"] }
anyhow = "1"
indicatif = "0.17"
