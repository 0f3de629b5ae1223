[package]
name = "gon"
version = "0.1.0"
edition = "2021"
publish = false

[dependencies]
anyhow = "=1.0.104"
chacha20poly1305 = "=0.10.1"
directories = "=6.0.0"
freedesktop-icons = "=0.4.0"
if-addrs = "=0.15.0"
log = "=0.4.34"
mdns-sd = "=0.21.6"
notify-rust = "=4.18.2"
png = "=0.18.1"
serde = { version = "=1.0.229", features = ["derive"] }
serde_cbor = "=0.11.2"
tokio = { version = "=1.54.1", features = ["full"] }
tokio-stream = "=0.1.19"
tray-item = { version = "=0.10.0", features = ["ksni"] }
zbus = { version = "=5.19.0", default-features = false, features = ["tokio"] }
