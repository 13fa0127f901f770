[package]
name = "fecc_core"
version = "0.1.0"
edition = "2021"
publish = false

[dependencies]
image = { version = "0.25", default-features = false, features = ["png"] }
imageproc = { version = "0.25", default-features = false }
rand = "0.9"
indexmap = "2"
csv = "1"
glob = "0.3"
log = "0.4"
simple_logger = "5"
tokio = { version = "1", features = ["fs", "rt-multi-thread", "macros"] }
serde = { version = "1", features = ["derive"] }
serde_json = "1"
