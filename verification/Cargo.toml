[package]
name = "pyxis_fs"
version = "0.1.0"
edition = "2021"
publish = false

[dependencies]
clap = { version = "=3.2.25", features = ["cargo"] }
env_logger = "=0.9.3"
fuser = { version = "=0.15.1", default-features = false }
futures = "=0.3.34"
quinn = "=0.8.5"
rustls = "=0.20.9"
tokio = { version = "=1.54.1", features = ["macros", "rt-multi-thread"] }

[dev-dependencies]
socket2 = { version = "=0.6.5", features = ["all"] }
