[package]
name = "wgl_context"
version = "0.1.0"
edition = "2021"
publish = false

[dependencies]
winapi = { version = "0.3", features = ["libloaderapi", "minwindef", "ntdef", "windef", "wingdi", "winuser"] }
