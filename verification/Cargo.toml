[package]
name = "adpt"
version = "0.1.0"
edition = "2021"
publish = false

[dependencies]
anyhow = "=1.0.104"
async-stream = "=0.3.6"
clap = { version = "=4.6.7", features = ["derive", "string"] }
clap_complete = { version = "=4.6.11", features = ["unstable-dynamic"] }
directories = "=6.0.0"
dotenvy = "=0.15.7"
envy = "=0.4.2"
fancy-duration = "=0.9.2"
futures = "=0.3.34"
graphql_client = { version = "=0.14.0", default-features = false }
iocraft = "=0.9.3"
keyring = "=3.6.3"
reqwest = { version = "=0.12.28", default-features = false, features = ["json", "multipart", "stream", "rustls-tls"] }
serde = { version = "=1.0.229", features = ["derive"] }
serde_json = "=1.0.154"
slug = "=0.1.6"
tempfile = "=3.27.0"
tokio = { version = "=1.54.1", features = ["rt-multi-thread", "macros", "sync", "time"] }
toml = "=1.1.8"
url = { version = "=2.5.8", features = ["serde"] }
uuid = { version = "=1.29.0", features = ["serde"] }
zip = { version = "=8.6.0", default-features = false, features = ["deflate"] }
zip-extensions = "=0.14.1"
