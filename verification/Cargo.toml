[package]
name = "ajour"
version = "0.1.0"
edition = "2021"
publish = false

[dependencies]
hex = "=0.4.3"
lru = "=0.7.8"
base64 = "=0.13.1"
serde = { version = "=1.0.229", features = ["derive"] }
serde_json = "=1.0.154"
serde_cbor = "=0.11.2"
serde_bytes = "=0.11.19"
anyhow = "=1.0.104"
log = "=0.4.34"
chrono = "=0.4.45"
env_logger = "=0.9.3"
clap = { version = "=3.2.25", features = ["derive"] }
tokio = { version = "=1.54.1", features = ["rt-multi-thread", "macros", "time", "fs"] }
futures = "=0.3.34"
async-trait = "=0.1.92"
reqwest = { version = "=0.11.27", default-features = false, features = ["json", "rustls-tls"] }
hyper = { version = "=0.14.32", features = ["server", "http1", "tcp"] }
cloudevents-sdk = "=0.9.0"
drogue-client = "=0.11.1"
oci-distribution = "=0.11.0"
paho-mqtt = "=0.14.0"
kube = "=3.1.0"
k8s-openapi = { version = "=0.27.1", features = ["latest"] }
actix-web = "=4.18.1"
actix-cors = "=0.7.2"
actix-web-httpauth = "=0.8.3"
