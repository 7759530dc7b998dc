[package]
name = "service_network"
version = "0.1.0"
edition = "2021"
publish = false

[dependencies]
rand = "0.8"
atoi = "2"
urlparse = "0.7"
semver = "1"
serde = { version = "1", features = ["derive"] }
serde_json = "1"
envy = "0.4"
hostname = "0.3"
if-addrs = "0.7"
mdns-sd = "0.7"
tokio = { version = "1", features = ["full"] }
axum = "0.5"
hyper = { version = "0.14", features = ["full"] }
reqwest = { version = "0.11", default-features = false, features = ["json"] }
tower-http = { version = "0.3", features = ["cors"] }
bytes = "1"
futures = "0.3"
fast-socks5 = "0.8"
trust-dns-resolver = { version = "0.21", features = ["dns-over-https-rustls"] }
env_logger = "0.9"
log = "0.4"
lazy_static = "1"
anyhow = "1"
prost = "0.11"
