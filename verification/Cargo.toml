[package]
name = "generic_async_http_client"
version = "0.1.0"
edition = "2021"
publish = false

[dependencies]
hyper = { version = "*", default-features = false, features = ["client", "http1", "http2"] }
tokio = { version = "*", features = ["net", "io-util", "rt"] }
tokio-rustls = { version = "*", default-features = false, features = ["ring", "tls12"] }
webpki-roots = "*"
serde = "*"
serde_json = "*"
serde_urlencoded = "*"
serde_qs = "*"
