[package]
name = "td_rs"
version = "0.1.0"
edition = "2021"
publish = false

[dependencies]
anyhow = "1"
autocxx = "*"
cxx = "1"
fs_extra = "1"
plist = "1"
