[package]
name = "qr_score"
version = "0.1.0"
edition = "2021"
publish = false

[dependencies]
image = { version = "=0.25.10", default-features = false, features = ["png", "jpeg"] }
rxing = { version = "=0.9.3", default-features = false, features = ["decoders", "qrcode", "encoding_rs"] }
rqrr = "=0.11.0"
rayon = "=1.12.0"
resvg = "=0.49.0"
usvg = "=0.49.0"
tiny-skia = "=0.12.0"
serde = { version = "=1.0.229", features = ["derive"] }
serde_json = "=1.0.154"
toml = "=1.1.8"
clap = { version = "=4.6.7", features = ["derive"] }
thiserror = "=2.0.21"

[dev-dependencies]
qrcode = "=0.14.1"
