[package]
name = "wheel_upload"
version = "0.1.0"
edition = "2021"
publish = false

[dependencies]
anyhow = "1"
base64 = "0.13"
bytesize = "1"
clap = { version = "3", features = ["derive"] }
configparser = "3"
dirs = "4"
fs-err = "2"
keyring = "1"
multipart = { version = "0.18", default-features = false, features = ["client"] }
python-pkginfo = "0.5"
regex = "1"
rpassword = "5"
thiserror = "1"
ureq = "2"
