[package]
name = "guild_warden"
version = "0.1.0"
edition = "2021"
publish = false

[dependencies]
env_logger = "0.8"
humantime = "2"
log = "0.4"
serenity = "0.10"
tokio = { version = "1", features = ["macros", "rt-multi-thread", "time"] }
