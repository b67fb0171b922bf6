[package]
name = "iz_prober"
version = "0.1.0"
edition = "2021"
publish = false

[dependencies]
chrono = "=0.4.45"
log = "0.4"
pretty_env_logger = "*"
reqwest = "0.12"
serde = { version = "1", features = ["derive"] }
takecell = "=0.1.1"
teloxide = { version = "*", features = ["macros"] }
tokio = { version = "1", features = ["rt-multi-thread", "macros", "time", "sync"] }
toml = "*"
