[package]
name = "bitvm2_core"
version = "0.1.0"
edition = "2021"
publish = false

[dependencies]
sha2 = "0.10"
csv = "1"
serde = { version = "1", features = ["derive"] }
eyre = "0.6"
bincode = "1"
lazy_static = "1"
tracing = "0.1"
tokio = { version = "1", features = ["macros", "rt-multi-thread"] }
alloy-consensus = "*"
revm-primitives = "*"
