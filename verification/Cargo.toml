[package]
name = "sitepass"
version = "0.1.0"
edition = "2021"
publish = false

[dependencies]
hmac = "*"
scrypt = "*"
sha2 = "*"
human-panic = "*"
log = "*"
rpassword = "*"
simple_logger = "*"
structopt = "*"
