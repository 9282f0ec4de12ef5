[package]
name = "nordnet"
version = "0.1.0"
edition = "2021"
publish = false

[dependencies]
anyhow = "=1.0.104"
base64 = "=0.22.1"
clap = { version = "=4.6.7", features = ["derive", "env"] }
clap_complete = "=4.6.11"
dirs = "=5.0.1"
indoc = "=2.0.8"
reqwest = { version = "=0.12.28", default-features = false, features = ["json"] }
rsa = { version = "=0.9.10", features = ["sha2"] }
rust_decimal = { version = "=1.43.0", features = ["serde-with-arbitrary-precision"] }
serde = { version = "=1.0.229", features = ["derive"] }
serde_json = { version = "=1.0.154", features = ["preserve_order", "arbitrary_precision"] }
serde_urlencoded = "=0.7.1"
sha2 = { version = "=0.10.9", features = ["oid"] }
thiserror = "=1.0.69"
time = { version = "=0.3.55", features = ["serde", "formatting", "parsing", "macros"] }
tokio = { version = "=1.54.1", features = ["macros", "rt-multi-thread"] }
toml = "=0.8.23"
