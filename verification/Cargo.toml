[package]
name = "voicetypr"
version = "0.1.0"
edition = "2021"
publish = false

[dependencies]
serde = { version = "=1.0.229", features = ["derive"] }
serde_json = "=1.0.151"
sha1 = "=0.10.7"
sha2 = "=0.10.9"
uuid = { version = "=1.27.0", features = ["v4"] }
hostname = "=0.4.2"
local-ip-address = "=0.6.13"
tempfile = "=3.27.0"
bytes = "=1.12.1"
tokio = { version = "=1.53.2", features = ["full"] }
reqwest = { version = "=0.13.5", default-features = false, features = ["json"] }
warp = { version = "=0.4.3", default-features = false, features = ["server"] }
