[package]
name = "defmthost"
version = "0.1.0"
edition = "2021"
publish = false

[dependencies]
seqid = "=0.1.3"
ron = "=0.12.3"
serde = { version = "=1.0.229", features = ["derive"] }
tracing = "=0.1.44"
tokio = { version = "=1.54.1", features = ["sync", "rt", "macros"] }
rusb = "=0.9.4"
marcel = "=0.1.1"
iced = { version = "=0.6.0", features = ["tokio"] }

[dev-dependencies]
regex = "=1.13.1"
