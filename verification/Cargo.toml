[package]
name = "geph_tui"
version = "0.1.0"
edition = "2021"
publish = false

[dependencies]
anyhow = "=1.0.104"
async-trait = "=0.1.92"
crossterm = "=0.28.1"
derive_more = "=2.0.1"
dirs = "=5.0.1"
futures-util = "=0.3.34"
geph5-broker-protocol = { version = "=0.5.0", default-features = false }
geph5-misc-rpc = { version = "=0.5.0", default-features = false }
isocountry = "=0.3.2"
nanorpc = "=0.1.13"
oneshot = "=0.1.13"
ratatui = "=0.29.0"
serde = { version = "=1.0.229", features = ["derive"] }
serde_json = "=1.0.154"
serde_yaml = "=0.9.34"
smol = "=2.0.2"
smol-timeout2 = "=0.6.1"
sys-locale = "=0.3.2"
tempfile = "=3.27.0"
tracing = "=0.1.44"
tracing-subscriber = "=0.3.23"
tui-textarea = "=0.7.0"
