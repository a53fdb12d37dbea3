[package]
name = "splayer_presence"
version = "0.1.0"
edition = "2021"
publish = false

[dependencies]
url = "*"
discord-rich-presence = "*"
tracing = "*"
tracing-appender = "*"
tracing-subscriber = "*"
anyhow = "*"
tokio = { version = "*", features = ["rt-multi-thread"] }
napi = { version = "*", features = ["napi4"] }
napi-derive = "*"
windows = { version = "*", features = ["Foundation", "Media", "Media_Playback", "Storage_Streams"] }
