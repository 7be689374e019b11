[package]
name = "krustlet"
version = "0.1.0"
edition = "2021"
publish = false

[dependencies]
url = "=2.5.8"
serde = { version = "*", features = ["derive"] }
serde_json = "*"
anyhow = "*"
log = "*"
env_logger = "*"
tokio = { version = "*", features = ["full"] }
futures = "*"
async-trait = "*"
kube = { version = "=3.1.0", features = ["runtime", "derive"] }
k8s-openapi = { version = "=0.27.1", features = ["latest"] }
reqwest = { version = "*", default-features = false, features = ["rustls-tls", "json"] }
flate2 = "*"
tar = "*"
tempfile = "*"
pnet = "*"
