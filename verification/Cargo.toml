[package]
name = "waldur_cli"
version = "0.1.0"
edition = "2021"
publish = false

[dependencies]
anyhow = "1"
clap = { version = "4", features = ["derive"] }
clap_complete = "4"
comfy-table = "7"
directories = "*"
jmespath = "*"
open = "5"
reqwest = "0.12"
reqwest-middleware = "0.4"
reqwest-retry = "0.7"
reqwest-tracing = "0.5"
rpassword = "7"
self_update = { version = "*", features = ["archive-tar", "compression-flate2"] }
serde = { version = "1", features = ["derive"] }
serde_json = { version = "1", features = ["preserve_order"] }
serde_toon = "*"
serde_yaml = "0.9"
tokio = { version = "1", features = ["rt", "macros", "time"] }
toml = "0.8"
tracing-subscriber = "0.3"
