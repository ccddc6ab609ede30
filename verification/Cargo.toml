[package]
name = "chalk_deploy"
version = "0.1.0"
edition = "2021"
publish = false

[dependencies]
anyhow = "1"
async-trait = "0.1"
clap = { version = "4", features = ["derive"] }
futures-util = "0.3"
http = "0.2"
hyper = "0.14"
prost = "0.12"
prost-types = "0.12"
serde = { version = "1", features = ["derive"] }
thiserror = "1"
tokio = { version = "1", features = ["macros", "rt-multi-thread", "signal"] }
tonic = "0.11"
tower = "0.4"
tracing = "0.1"
tracing-subscriber = "0.3"
