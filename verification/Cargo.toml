[package]
name = "windows-kernel-rs"
version = "0.1.0"
edition = "2021"
publish = false

[dependencies]
bitflags = "1.3"
cty = "0.2"
lazy_static = "1.4"
thiserror = "1.0"
widestring = "0.4"
winapi = { version = "0.3", features = ["ioapiset", "winioctl", "winnt", "ntstatus"] }
