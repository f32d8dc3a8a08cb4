[package]
name = "gstopentok"
version = "0.1.0"
edition = "2021"
publish = false

[dependencies]
anyhow = "1"
async-std = "1"
byte-slice-cast = "=1.2.3"
clap-serde = { version = "=0.5.1", features = ["yaml"] }
env_logger = "0.10"
gstreamer = "=0.19.8"
gstreamer-app = "=0.19.6"
gstreamer-audio = "=0.19.4"
gstreamer-base = "=0.19.3"
gstreamer-video = "=0.19.5"
ipc-channel = "=0.16.1"
json = "=0.12.4"
log = "0.4"
once_cell = "1"
opentok = "=1.0.4"
serde = { version = "1", features = ["derive"] }
signal-child = "1"
signal-hook = "0.3"
signal-hook-async-std = "0.2"
surf = "2"
thiserror = "1"
url = "=2.5.8"
uuid = { version = "=1.29.0", features = ["v4"] }
yaml-rust = "0.4"
