[package]
name = "tar_extract"
version = "0.1.0"
edition = "2021"
publish = false

[dependencies]
anyhow = "*"
bzip2 = "*"
flate2 = "*"
indicatif = "*"
tar = "*"
xz2 = "*"
