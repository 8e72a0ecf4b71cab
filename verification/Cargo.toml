[package]
name = "azizo_core"
version = "0.1.0"
edition = "2021"
publish = false

[dependencies]
libloading = "*"
log = "*"
thiserror = "*"
windows-sys = { version = "*", features = ["Win32_Foundation", "Win32_Storage_Packaging_Appx"] }
iced = "*"
