[package]
name = "sip_gateway"
version = "0.1.0"
edition = "2021"
publish = false

[dependencies]
anyhow = "=1.0.104"
clap = { version = "=4.6.7", features = ["derive"] }
ipnet = "=2.12.2"
jwt-simple = { version = "=0.12.14", default-features = false, features = ["pure-rust"] }
prost = "=0.14.4"
rand = "=0.8.5"
reqwest = { version = "=0.13.5", default-features = false, features = ["json"] }
serde = { version = "=1.0.229", features = ["derive"] }
serde_json = "=1.0.151"
thiserror = "=2.0.21"
tokio = { version = "=1.53.2", features = ["rt-multi-thread", "macros", "sync", "time"] }
