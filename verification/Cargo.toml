[package]
name = "embedded_recruitment_task"
version = "0.1.0"
edition = "2021"
publish = false

[dependencies]
async-std = "1"
log = "0.4"
prost = "0.13"
tokio = { version = "1", features = ["sync"] }
