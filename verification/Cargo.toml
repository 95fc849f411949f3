[package]
name = "buffr"
version = "0.1.0"
edition = "2021"
publish = false

[dependencies]
anyhow = "1"
bytemuck = { version = "1", features = ["derive"] }
clap = { version = "4", features = ["derive"] }
ctrlc = "3"
hex = "0.4"
interprocess = "2"
libc = "0.2"
nix = { version = "*", features = ["signal", "process"] }
pollster = "*"
raw-window-handle = "0.6"
serde = { version = "1", features = ["derive"] }
serde_json = "1"
sha2 = "0.10"
signal-hook = "0.3"
tracing = "0.1"
tracing-subscriber = { version = "0.3", features = ["env-filter"] }
url = "2"
wgpu = "29"
winit = "0.30"

[dev-dependencies]
tempfile = "3"
