[package]
name = "easy_git"
version = "0.1.0"
edition = "2021"
publish = false

[dependencies]
anyhow = "=1.0.104"
flutter_rust_bridge = "=2.13.0"
git2 = { version = "=0.21.0", features = ["ssh", "https"] }
rayon = "=1.12.0"
serde = { version = "=1.0.229", features = ["derive"] }
thiserror = "=2.0.21"
