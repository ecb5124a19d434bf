[package]
name = "server"
version = "0.1.0"
edition = "2021"
publish = false

[dependencies]
httparse = "1"
clap = { version = "4", features = ["derive"] }
ctrlc = "3"
log = "0.4"
simple_logger = "4"
ureq = { version = "2", default-features = false }
