[package]
name = "reminder_bot"
version = "0.1.0"
edition = "2021"
publish = false

[dependencies]
rand = "=0.8.8"
log = "=0.4.34"
takecell = "=0.1.1"
teloxide = { version = "=0.12.2", default-features = false, features = ["rustls", "ctrlc_handler"] }
tokio = { version = "=1.53.2", features = ["rt-multi-thread", "macros"] }
