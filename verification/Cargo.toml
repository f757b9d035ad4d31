[package]
name = "vote_tracker"
version = "0.1.0"
edition = "2021"
publish = false

[dependencies]
rustc-hash = "=2.1.3"
bs58 = "=0.5.1"
chrono = "=0.4.45"
anyhow = "=1.0.104"
tracing = "=0.1.44"
tracing-subscriber = { version = "=0.3.23", features = ["env-filter", "time"] }
dotenv = "=0.15.0"
futures = "=0.3.34"
tokio = { version = "=1.54.1", features = ["full"] }
reqwest = "=0.13.5"
yellowstone-grpc-client = "*"
yellowstone-grpc-proto = "*"
