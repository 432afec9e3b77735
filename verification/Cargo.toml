[package]
name = "hms2osc"
version = "0.1.0"
edition = "2021"
publish = false

[dependencies]
clap = { version = "*", features = ["derive"] }
colog = "*"
directories = "*"
huelib = "*"
log = "*"
rosc = "*"
serde = { version = "*", features = ["derive"] }
serde_json = "*"
thiserror = "*"
