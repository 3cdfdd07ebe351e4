[package]
name = "ghprod"
version = "0.1.0"
edition = "2021"
publish = false

[dependencies]
chrono = "=0.4.45"
clap = { version = "=4.6.7", features = ["derive"] }
log = "=0.4.34"
octocrab = "=0.47.1"
pretty_env_logger = "=0.5.0"
tokio = { version = "=1.53.2", features = ["macros", "rt-multi-thread", "time"] }
