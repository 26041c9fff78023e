[package]
name = "kicad_ipc"
version = "0.1.0"
edition = "2021"
publish = false

[dependencies]
nng = "*"
prost = "*"
prost-types = "*"
thiserror = "*"
tokio = { version = "*", default-features = false, features = ["rt", "time"] }
