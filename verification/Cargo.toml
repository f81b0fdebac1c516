[package]
name = "kube_watch"
version = "0.1.0"
edition = "2021"
publish = false

[dependencies]
k8s-openapi = { version = "*", features = ["latest"] }
reqwest = { version = "0.12", features = ["blocking", "json"] }
