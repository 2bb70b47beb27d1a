[package]
name = "multipath_scheduler"
version = "0.1.0"
edition = "2021"
publish = false

[dependencies]
bytes = "1"
clap = { version = "4", features = ["derive"] }
env_logger = "0.10"
log = "0.4"
mio = { version = "0.8", features = ["net", "os-poll"] }
rand = "0.8"
rustc-hash = "1.1"
statrs = "0.16"
tikv-jemallocator = "0.5"
url = "2"
