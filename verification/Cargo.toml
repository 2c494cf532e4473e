[package]
name = "flicks"
version = "0.1.0"
edition = "2021"
publish = false

[dependencies]
base64 = "0.21"
rand = "0.8"
md5 = "0.7"
hex = "0.4"
http = "0.2"
async-trait = "0.1"
serde = { version = "1", features = ["derive"] }
tokio = { version = "1", features = ["macros", "rt-multi-thread"] }
reqwest = { version = "0.11", default-features = false, features = ["json", "rustls-tls"] }
serenity = { version = "0.11", default-features = false, features = ["builder", "model", "http", "rustls_backend"] }
grammers-client = "*"
grammers-session = "*"
grammers-tl-types = "*"
