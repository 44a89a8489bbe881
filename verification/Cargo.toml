[package]
name = "vagga_core"
version = "0.1.0"
edition = "2021"
publish = false

[dependencies]
regex = "=1.13.1"
globset = "=0.3.0"
rand = "=0.8.8"
walkdir = "=2.5.0"
serde_json = "=1.0.154"
sha2 = "=0.10.9"
url = "=2.5.8"
tar = "*"
flate2 = "*"
xz2 = "*"
bzip2 = "*"
