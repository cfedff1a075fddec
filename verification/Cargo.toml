[package]
name = "scoundrel"
version = "0.1.0"
edition = "2021"
publish = false

[dependencies]
anyhow = "1"
thiserror = "1"
serde = { version = "1", features = ["derive"] }
tui = "0.19"
crossterm = "0.26"
wgpu = "0.14"
naga = "0.10"
pollster = "0.3"
