[package]
name = "srun_client"
version = "0.1.0"
edition = "2021"
publish = false

[dependencies]
base64 = "0.22"
clap = "4"
hmac = "0.12"
json = "0.12"
local-ip-address = "*"
md-5 = "0.10"
regex = "1"
reqwest = { version = "0.12", features = ["blocking"] }
sha1 = "0.10"
