[package]
name = "pomodoro"
version = "0.1.0"
edition = "2021"
publish = false

[dependencies]
bincode = "2"
chrono = "0.4"
clap = "4"
clap_complete = "4"
colored = "2"
env_logger = "0.10"
gluesql = { version = "0.13", default-features = false, features = ["memory-storage"] }
log = "0.4"
notify-rust = "4"
reqwest = { version = "0.11", default-features = false }
rustyline = "11"
serde = { version = "1", features = ["derive"] }
serde_json = "1"
tabled = { version = "0.10", features = ["color"] }
tokio = { version = "1", features = ["full"] }
