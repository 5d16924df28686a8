[package]
name = "mcp_web_porter"
version = "0.1.0"
edition = "2021"
publish = false

[dependencies]
url = "2"
scraper = "*"
base64 = "0.22"
pbkdf2 = "0.12"
sha1 = "0.10"
aes = "0.8"
cbc = "0.1"
cipher = "0.4"
serde = { version = "1", features = ["derive"] }
serde_json = "1"
schemars = "1"
tokio = { version = "1", features = ["full"] }
futures = "0.3"
chromiumoxide = "*"
reqwest = { version = "0.12", default-features = false, features = ["rustls-tls"] }
rmcp = { version = "*", features = ["server", "macros", "transport-io"] }
rusqlite = { version = "*", features = ["bundled"] }
dirs = "*"
