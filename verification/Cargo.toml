[package]
name = "postgres-topology-operator"
version = "0.1.0"
edition = "2021"
publish = false

[dependencies]
rustls-pki-types = { version = "=1.15.1", features = ["std"] }
tokio-postgres = "=0.7.18"
tokio-postgres-rustls = "=0.10.0"
rustls = "=0.21.12"
webpki-roots = "=0.25.4"
kube = { version = "=0.87.2", default-features = false, features = ["client", "derive", "runtime", "rustls-tls"] }
kube-runtime = "=0.87.2"
k8s-openapi = { version = "=0.20.0", features = ["v1_28"] }
tokio = { version = "=1.54.1", features = ["full"] }
anyhow = "=1.0.104"
thiserror = "=1.0.69"
serde = { version = "=1.0.229", features = ["derive"] }
serde_json = "=1.0.154"
schemars = "=0.8.22"
clap = { version = "=4.6.7", features = ["derive", "env"] }
futures = "=0.3.34"
log = "=0.4.35"
pretty_env_logger = "=0.5.0"
serde_yaml = "=0.9.34"
