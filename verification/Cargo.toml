[package]
name = "sparkle"
version = "0.1.0"
edition = "2021"
publish = false

[dependencies]
serde_json = "*"
serde = { version = "*", features = ["derive"] }
tokio = { version = "*", features = ["rt-multi-thread", "macros", "time", "sync"] }
thirtyfour = { version = "*", default-features = false, features = ["rustls-tls"] }
tokio-tungstenite = "*"
futures = "*"
reqwest = { version = "*", default-features = false, features = ["json", "rustls-tls"] }
clap = { version = "*", features = ["derive"] }
url = "*"
zip = { version = "*", default-features = false, features = ["deflate"] }
http = "*"
