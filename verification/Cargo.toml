[package]
name = "unix_datagram"
version = "0.1.0"
edition = "2021"
publish = false

[dependencies]
futures = "=0.3.34"
mio = { version = "=1.2.4", features = ["os-poll", "net"] }

[dev-dependencies]
rustix = { version = "=1.1.5", features = ["net"] }
tempfile = "=3.27.0"
