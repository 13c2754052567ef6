[package]
name = "twbm_installer"
version = "0.1.0"
edition = "2021"
publish = false

[dependencies]
zip = "*"
minreq = { version = "*", features = ["https"] }
directories = "*"
mslnk = "*"
windows-registry = "*"
