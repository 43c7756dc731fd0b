[package]
name = "transparentd"
version = "0.1.0"
edition = "2021"
publish = false

[dependencies]
crossbeam-channel = "=0.5.17"
directories = "=2.0.2"
env_logger = "=0.6.2"
fs2 = "=0.4.3"
i3ipc = { version = "=0.10.1", features = ["i3-4-14"] }
inotify = { version = "=0.9.6", default-features = false }
lazy_static = "=1.5.1"
log = "=0.4.34"
serde = { version = "=1.0.229", features = ["derive"] }
serde_cbor = "=0.11.2"
serde_derive = "=1.0.229"
snafu = "=0.6.10"
structopt = "=0.3.26"
toml = "=0.5.11"
