[package]
name = "gem"
version = "0.1.0"
edition = "2021"
publish = false

[dependencies]
qrcode = "=0.13.0"
image = "=0.24.9"
imageproc = "=0.23.1"
rusttype = "=0.9.3"
libmonero = "=0.1.9"
serde_json = "=1.0.154"
chrono = "=0.4.45"
ureq = { version = "=2.12.1", features = ["json"] }
rust-embed = "8"
