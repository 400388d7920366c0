[package]
name = "scrollr"
version = "0.1.0"
edition = "2021"
publish = false

[dependencies]
anyhow = "1"
axum = { version = "0.8", features = ["macros"] }
axum-extra = { version = "0.10", features = ["cookie"] }
axum-server = { version = "0.7", default-features = false, features = ["tls-rustls-no-provider"] }
chrono = { version = "0.4", features = ["serde"] }
dotenv = "0.15"
futures-util = { version = "0.3", features = ["sink"] }
log = "0.4"
oauth2 = { version = "5", default-features = false, features = ["reqwest"] }
rcgen = "0.13"
redis = { version = "0.32", features = ["tokio-comp"] }
reqwest = { version = "0.12", default-features = false, features = ["json", "rustls-tls"] }
rustls = { version = "0.23", default-features = false, features = ["ring", "std", "tls12", "logging"] }
secrecy = "0.10"
serde = { version = "1", features = ["derive"] }
serde_json = "1"
serde-xml-rs = "0.6"
sqlx = { version = "0.8", default-features = false, features = ["runtime-tokio", "tls-rustls-ring-webpki", "postgres", "chrono", "macros"] }
tokio = { version = "1", features = ["full"] }
tokio-rustls-acme = { version = "0.7", features = ["axum"] }
tokio-tungstenite = { version = "0.27", features = ["rustls-tls-webpki-roots"] }
tower-http = { version = "0.6", features = ["cors", "set-header"] }
