[package]
name = "wakeword"
version = "0.1.0"
edition = "2021"
publish = false

[dependencies]
anyhow = "*"
chrono = "*"
clap = { version = "*", features = ["derive"] }
cpal = "*"
ringbuffer = "*"
rubato = "*"
shutil = "*"
whisper-rs = "*"
