[package]
name = "sentinel_agent"
version = "0.1.0"
edition = "2021"
publish = false

[dependencies]
async-trait = "=0.1.92"
audit = "=0.8.0"
config = { version = "=0.15.27", default-features = false, features = ["toml"] }
crossbeam-channel = "=0.5.17"
futures = "=0.3.34"
netlink-packet-core = "=0.9.0"
once_cell = "=1.21.4"
quick-xml = { version = "=0.42.0", features = ["serialize"] }
reqwest = { version = "=0.13.5", default-features = false, features = ["json"] }
serde = { version = "=1.0.229", features = ["derive"] }
serde_json = "=1.0.154"
tokio = { version = "=1.54.1", features = ["rt-multi-thread", "macros", "time"] }
tracing = "=0.1.44"
tracing-subscriber = { version = "=0.3.23", features = ["json"] }
uuid = { version = "=1.29.0", features = ["v4"] }
