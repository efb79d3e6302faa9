[package]
name = "tars"
version = "0.1.0"
edition = "2021"
publish = false

[dependencies]
pulldown-cmark = "=0.13.4"
serde_yaml = "=0.9.34"
chrono = "=0.4.45"
sha2 = "=0.11.0"
clap = "=4.6.7"
toml = "=1.1.7"
serde = { version = "=1.0.229", features = ["derive"] }
tokio = { version = "=1.53.2", features = ["full"] }
warp = { version = "=0.4.3", features = ["server"] }
notify = "=8.2.0"
walkdir = "=2.5.0"
minijinja = "=2.24.0"
tempfile = "=3.27.0"
fs_extra = "=1.3.0"
anyhow = "=1.0.104"
