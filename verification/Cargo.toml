[package]
name = "vessels_chat_demo"
version = "0.1.0"
edition = "2021"
publish = false

[dependencies]
futures = "0.3"
smol = "0.1"
thiserror = "1"
anyhow = "1"
num_cpus = "1"
rustls = "0.17"
webpki-roots = "0.19"
termion = "1.5"
tui = "0.8"
unicode-width = "0.1"
iui = "0.3"
