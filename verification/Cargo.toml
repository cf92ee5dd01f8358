[package]
name = "dispense_api"
version = "0.1.0"
edition = "2021"
publish = false

[dependencies]
env_logger = "0.9"
juniper = "0.15"
juniper_warp = "0.7"
log = "0.4"
tokio = { version = "1", features = ["macros", "rt-multi-thread"] }
warp = "0.3"
