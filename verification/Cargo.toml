[package]
name = "kugou_api"
version = "0.1.0"
edition = "2021"
publish = false

[dependencies]
md5 = "=0.8.1"
url = "=2.5.8"
serde_json = { version = "=1.0.154", features = ["float_roundtrip"] }
serde = { version = "=1.0.229", features = ["derive"] }
base64 = "=0.22.1"
qrcode = { version = "=0.14.1", default-features = false }
png = "=0.18.1"
rand = "=0.10.3"
uuid = { version = "=1.29.0", features = ["v4"] }
axum = "=0.8.9"
tokio = { version = "=1.54.1", features = ["full"] }
tower-http = { version = "=0.6.11", features = ["fs"] }
reqwest = { version = "=0.12.28", default-features = false, features = ["json", "rustls-tls"] }
rquickjs = { version = "=0.14.0", features = ["futures", "loader", "parallel"] }
dotenvy = "=0.15.7"
