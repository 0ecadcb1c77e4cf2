[package]
name = "collpasswd"
version = "0.1.0"
edition = "2021"
publish = false

[dependencies]
aes-gcm = "=0.10.3"
argon2 = "=0.5.3"
axum = { version = "=0.7.9", features = ["multipart"] }
axum-server = { version = "0.7.3", default-features = false, features = ["tls-rustls-no-provider"] }
base64 = "=0.22.1"
calamine = "0.30.1"
chrono = "=0.4.45"
clap = { version = "=4.6.7", features = ["derive"] }
hkdf = "=0.12.4"
jsonwebtoken = "=9.3.1"
libc = "=0.2.191"
mime_guess = "2"
p256 = { version = "=0.13.2", features = ["ecdh", "pem", "pkcs8"] }
r2d2 = "=0.8.10"
r2d2_sqlite = "=0.24.0"
rand = "=0.8.8"
rcgen = "=0.11.3"
rusqlite = { version = "=0.31.0", features = ["bundled"] }
rust_xlsxwriter = "=0.79.4"
rustls = { version = "0.23", default-features = false, features = ["ring", "std", "tls12", "logging"] }
serde = { version = "=1.0.229", features = ["derive"] }
serde_json = { version = "=1.0.154", features = ["preserve_order"] }
sha2 = "=0.10.9"
time = "=0.3.55"
tokio = { version = "=1.54.1", features = ["full"] }
tower-http = { version = "=0.5.2", features = ["cors"] }
tracing = "=0.1.44"
tracing-subscriber = { version = "=0.3.23", features = ["env-filter"] }
uuid = { version = "=1.29.0", features = ["v4"] }
zeroize = { version = "=1.9.1", features = ["derive"] }
