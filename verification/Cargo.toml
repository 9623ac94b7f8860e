[package]
name = "pocket_tts"
version = "1.0.2"
edition = "2021"
publish = false

[dependencies]
audioadapter-buffers = "*"
candle-core = "=0.11.0"
candle-nn = "=0.11.0"
hound = "=3.5.1"
rubato = "=5.0.1"
serde_json = "=1.0.151"
