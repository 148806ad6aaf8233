[package]
name = "node_plugins"
version = "0.1.0"
edition = "2021"
publish = false

[dependencies]
extism-pdk = "=1.4.1"
nodejs_package_json = "=0.4.11"
proto_pdk = "=0.36.0"
proto_pdk_api = "=0.35.0"
regex = "=1.13.1"
serde = { version = "=1.0.229", features = ["derive"] }

[dev-dependencies]
serde_json = "=1.0.154"
