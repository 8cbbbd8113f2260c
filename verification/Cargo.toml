[package]
name = "gfn_streamer"
version = "0.1.0"
edition = "2021"
publish = false

[dependencies]
anyhow = "1"
ash = "0.38"
bytemuck = { version = "1", features = ["derive"] }
bytes = "1"
clap = { version = "4", features = ["derive"] }
env_logger = "0.11"
futures-util = "0.3"
glyphon = "0.7"
log = "0.4"
parking_lot = "0.12"
rand = "0.8"
raw-window-handle = "0.6"
ringbuf = "0.4"
sdl2 = { version = "0.37", features = ["raw-window-handle"] }
serde = { version = "1", features = ["derive"] }
serde_json = "1"
tokio = { version = "1", features = ["full"] }
tokio-tungstenite = { version = "0.24", features = ["rustls-tls-webpki-roots"] }
webrtc = "0.11"
wgpu = { version = "23", default-features = false, features = ["wgsl"] }
