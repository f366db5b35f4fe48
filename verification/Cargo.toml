[package]
name = "randyrand"
version = "0.1.0"
edition = "2021"
publish = false

[dependencies]
anyhow = "=1.0.104"
clap = { version = "=4.6.7", features = ["derive", "env"] }
console = "=0.15.11"
dialoguer = "=0.11.0"
fastrand = "=2.5.0"
indicatif = "=0.17.11"
serde = { version = "=1.0.229", features = ["derive"] }
thiserror = "=2.0.21"
ureq = { version = "=3.5.0", features = ["json"] }
