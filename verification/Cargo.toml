[package]
name = "worldping"
version = "0.1.0"
edition = "2021"
publish = false

[dependencies]
anyhow = "*"
clap = { version = "*", features = ["derive"] }
exemplar = "*"
indicatif = "*"
libc = "*"
rusqlite = { version = "*", features = ["bundled"] }
socket2 = { version = "*", features = ["all"] }
