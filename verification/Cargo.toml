[package]
name = "fontserve"
version = "0.1.0"
edition = "2021"
publish = false

[dependencies]
font-kit = "=0.14.3"
serde = { version = "=1.0.229", features = ["derive"] }
serde_json = "=1.0.151"
tokio = { version = "=1.53.2", features = ["macros", "rt-multi-thread"] }
ttf-parser = "=0.25.1"
warp = { version = "=0.4.3", features = ["server"] }
