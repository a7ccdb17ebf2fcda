[package]
name = "xpbd_constraints"
version = "0.1.0"
edition = "2021"
publish = false

[dependencies]
bevy = { version = "0.12", default-features = false, features = ["serialize"] }
itertools = "0.12"
serde = { version = "1", features = ["derive"] }
