[package]
name = "d_link"
version = "0.1.0"
edition = "2021"
publish = false

[dependencies]
anyhow = "=1.0.104"
dirs = "=7.0.0"
hashbrown = "=0.17.1"
lazy_static = "=1.5.1"
libnspire = "=0.2.3"
rusb = "=0.6.5"
serde = { version = "=1.0.229", features = ["derive"] }
