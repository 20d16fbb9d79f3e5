[package]
name = "nextory"
version = "0.1.0"
edition = "2021"
publish = false

[dependencies]
chrono = { version = "0.4", features = ["serde"] }
clap = { version = "4", features = ["derive"] }
futures-util = "0.3"
id3 = "1"
indicatif = "0.17"
md-5 = "0.10"
rand = "0.8"
reqwest = { version = "0.11", features = ["json", "multipart", "stream"] }
serde = { version = "1", features = ["derive"] }
tokio = { version = "1", features = ["macros", "rt-multi-thread", "fs", "io-util"] }
