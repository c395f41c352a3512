[package]
name = "scrape_gateway"
version = "0.1.0"
edition = "2021"
publish = false

[dependencies]
brotlic = "=0.8.2"
bytes = "*"
futures-util = "*"
h3 = "=0.0.8"
h3-quinn = "=0.0.10"
http = "=1.5.0"
quinn = "=0.11.12"
rustls = { version = "=0.23.45", features = ["ring"] }
serde_json = "=1.0.151"
tokio = { version = "=1.53.2", features = ["rt-multi-thread", "macros", "net", "io-util"] }
tokio-tungstenite = "=0.30.0"
tracing = "*"
tracing-subscriber = { version = "*", features = ["env-filter", "fmt"] }
url = "=2.5.8"
urlencoding = "=2.1.3"
