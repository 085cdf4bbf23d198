[package]
name = "feditexter"
version = "0.1.0"
edition = "2021"
publish = false

[dependencies]
base64 = "=0.22.1"
chrono = { version = "=0.4.45", default-features = false, features = ["std"] }
hmac = "=0.12.1"
image = { version = "=0.25.10", default-features = false, features = ["png", "jpeg", "bmp", "gif", "webp"] }
scraper = { version = "=0.24.0", default-features = false }
serde = { version = "=1.0.229", features = ["derive"] }
serde_json = "=1.0.154"
dirs-next = "2"
openh264 = "=0.9.9"
sha1 = "=0.10.7"
url = "=2.5.8"
uuid = { version = "=1.10.0", features = ["v4"] }
futures-util = { version = "=0.3.34", default-features = false, features = ["std", "sink"] }
iced = { version = "=0.14.0", default-features = false, features = ["image-without-codecs", "tiny-skia", "tokio", "x11"] }
reqwest = { version = "=0.12.28", default-features = false, features = ["json"] }
tokio = { version = "=1.54.1", features = ["rt-multi-thread", "macros", "sync", "time"] }
tokio-tungstenite = "=0.24.0"
