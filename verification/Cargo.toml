[package]
name = "gscite"
version = "0.1.0"
edition = "2021"
publish = false

[dependencies]
url = "=2.5.8"
scraper = "=0.29.0"
reqwest = { version = "=0.12.28", default-features = false, features = ["rustls-tls"] }
futures-util = "=0.3.34"
thiserror = "=1.0.69"
tracing = "=0.1.44"
