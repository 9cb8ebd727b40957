[package]
name = "clip_verse"
version = "0.1.0"
edition = "2021"
publish = false

[dependencies]
chrono = "=0.4.45"
sha2 = "=0.10.9"
rusqlite = { version = "=0.41.1", features = ["bundled"] }
serde = { version = "=1.0.229", features = ["derive"] }
thiserror = "=2.0.21"
arboard = "=3.7.0"
image = { version = "=0.25.10", default-features = false, features = ["png"] }
aes-gcm = "0.10"
