[package]
name = "desktop_installer"
version = "0.1.0"
edition = "2021"
publish = false

[dependencies]
base64 = "0.22"
image = { version = "0.25", default-features = false, features = ["png"] }
qrcode = "0.14"
serde_json = "1"
serde = { version = "1", features = ["derive"] }
reqwest = { version = "0.12", default-features = false, features = ["rustls-tls"] }
tokio = { version = "1", features = ["time", "rt-multi-thread", "macros"] }
which = "*"
open = "5"

[dev-dependencies]
rqrr = { version = "*", default-features = false }
