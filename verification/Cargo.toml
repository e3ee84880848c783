[package]
name = "hanhcute"
version = "0.1.0"
edition = "2021"
publish = false

[dependencies]
anyhow = "1"
chrono = "0.4"
clap = { version = "4", features = ["derive"] }
hound = "3"
log = "0.4"
rubato = "0.16"
serde = { version = "1", features = ["derive"] }
specta = "*"
symphonia = "0.5"
