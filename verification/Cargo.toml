[package]
name = "gxib"
version = "0.1.0"
edition = "2021"
publish = false

[dependencies]
toml = { version = "=0.5.11", features = ["preserve_order"] }
seahash = "=4.1.0"
anyhow = "=1.0.104"
clap = { version = "=3.2.25", features = ["derive"] }
tokio = { version = "=1.54.1", features = ["full"] }
notify = "=6.1.1"
actix = "=0.13.5"
actix-web = { version = "=4.18.1", default-features = false, features = ["macros", "ws"] }
actix-files = "=0.6.10"
actix-web-actors = "=4.3.1"
log = "=0.4.35"
simplelog = "=0.12.2"
path-absolutize = "=3.1.1"
futures = "=0.3.34"
