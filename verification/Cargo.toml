[package]
name = "wfd"
version = "0.1.0"
edition = "2021"
publish = false

[dependencies]
libc = "0.2"
winapi = { version = "0.3", features = ["combaseapi", "objbase", "shobjidl", "shobjidl_core", "shtypes", "winerror", "minwindef", "ntdef", "windef", "impl-default"] }
