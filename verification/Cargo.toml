[package]
name = "dfcache"
version = "0.1.0"
edition = "2021"
publish = false

[dependencies]
anyhow = "=1.0.104"
clap = { version = "=4.6.7", features = ["derive"] }
dragonfly-api = "=2.3.8"
dragonfly-client-core = "=1.5.10"
hyper-util = { version = "=0.1.21", features = ["tokio"] }
tokio = { version = "=1.54.1", features = ["macros", "net", "rt-multi-thread"] }
tonic = "=0.14.6"
tonic-health = "=0.14.6"
tower = { version = "=0.5.3", features = ["util"] }
tracing = "=0.1.44"
