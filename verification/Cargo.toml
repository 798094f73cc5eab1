[package]
name = "rgytui"
version = "0.1.0"
edition = "2021"
publish = false

[dependencies]
serde = { version = "1", features = ["derive"] }
serde_json = "1"
sys-locale = "0.3"
flate2 = "1"
tar = "0.4"
zip = { version = "2", default-features = false, features = ["deflate"] }
anyhow = "1"
thiserror = "2"
async-trait = "0.1"
crossterm = "*"
ratatui = "*"
tokio = { version = "1", features = ["full"] }
tokio-util = "0.7"
directories = "*"
dirs = "*"
rodio = "*"
rustfft = "6"
num-complex = "0.4"
rayon = "1"
rfd = "*"
ureq = { version = "3", features = ["json"] }
tracing = "0.1"
tracing-subscriber = { version = "0.3", features = ["env-filter"] }
