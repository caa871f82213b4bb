[package]
name = "rey"
version = "0.1.0"
edition = "2021"
publish = false

[dependencies]
xsalsa20poly1305 = "0.9"
chacha20poly1305 = "0.10"
rand_core = { version = "0.6", features = ["getrandom"] }
argon2 = "0.5"
blake2b_simd = "1"
x25519-dalek = { version = "2", features = ["static_secrets"] }
subtle = "2"
base64 = "0.22"
hex = "0.4"
sha2 = "0.10"
md5 = "0.7"
infer = "0.16"
image = { version = "0.25", default-features = false, features = ["jpeg", "png", "webp"] }
kamadak-exif = "0.5"
chrono = "0.4"
serde = { version = "1", features = ["derive"] }
serde_json = "1"
toml = "0.8"
dirs-next = "2"
thiserror = "1"
uuid = { version = "1", features = ["v4"] }
tracing = "0.1"
tracing-subscriber = { version = "0.3", features = ["env-filter", "json"] }
tokio = { version = "1", features = ["sync", "rt", "macros"] }
reqwest = { version = "0.12", default-features = false, features = ["json"] }
rusqlite = { version = "0.32", features = ["bundled"] }
keyring = "3"
getrandom = "0.3"
rand = "0.8"
