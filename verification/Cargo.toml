[package]
name = "edaw"
version = "0.1.0"
edition = "2021"
publish = false

[dependencies]
anyhow = "1"
bincode = "1"
serde = { version = "1", features = ["derive"] }
ringbuf = "0.3"
midly = { version = "0.5", default-features = false, features = ["alloc", "std"] }
crossbeam = "0.8"
crossbeam-channel = "0.5"
crossterm = "0.27"
ratatui = "0.24"
fxhash = "0.2"
mio = { version = "0.8", features = ["net", "os-poll"] }
strum = { version = "0.25", features = ["derive"] }
