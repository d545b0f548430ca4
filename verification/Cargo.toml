[package]
name = "clr_bootstrap"
version = "0.1.0"
edition = "2021"
publish = false

[dependencies]
winapi = { version = "0.3", features = ["guiddef", "libloaderapi", "minwindef", "ntdef", "objidlbase", "unknwnbase", "winnt"] }
