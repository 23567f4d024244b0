[package]
name = "frame_rpc"
version = "0.1.0"
edition = "2021"
publish = false

[dependencies]
ethers = { version = "2", default-features = false }
reqwest = { version = "0.11", default-features = false }
serde_json = "1"
tokio = { version = "1", features = ["rt"] }
futures = "0.3"
async-trait = "0.1"
thiserror = "1"
