[package]
name = "can_flasher"
version = "0.1.0"
edition = "2021"
publish = false

[dependencies]
crc = "3"
ihex = "3"
object = "0.36"
clap = { version = "4", features = ["derive"] }
anyhow = "1"
serde = { version = "1", features = ["derive"] }
serde_json = "1"
thiserror = "2"
tracing = "0.1"
tracing-subscriber = { version = "0.3", features = ["env-filter", "fmt"] }
dirs = "5"
ureq = "2"
