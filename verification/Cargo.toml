[package]
name = "q_stream"
version = "0.1.0"
edition = "2021"
publish = false

[dependencies]
aws-config = "*"
aws-sdk-qbusiness = "*"
aws-smithy-http = { version = "*", features = ["event-stream"] }
futures-util = "*"
pyo3 = "*"
pyo3-async-runtimes = { version = "*", features = ["tokio-runtime", "unstable-streams"] }
tokio = { version = "*", features = ["rt-multi-thread", "sync"] }
