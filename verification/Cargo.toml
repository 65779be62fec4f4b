[package]
name = "xdp_filter"
version = "0.1.0"
edition = "2021"
publish = false

[dependencies]
network-types = "0.0.7"
aya = "0.13"
aya-ebpf = "0.1"
aya-log = "0.2"
aya-log-ebpf = "0.1"
anyhow = "1"
clap = { version = "4", features = ["derive"] }
env_logger = "0.11"
log = "0.4"
tokio = { version = "1", features = ["macros", "rt-multi-thread", "signal"] }
trust-dns-resolver = "0.23"
