[package]
name = "udp_sas_mio"
version = "0.1.0"
edition = "2021"
publish = false

[dependencies]
libc = "*"
mio = { version = "*", features = ["net", "os-poll"] }

[dev-dependencies]
udp_sas = "*"
