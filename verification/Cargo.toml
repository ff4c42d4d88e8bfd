[package]
name = "overlay"
version = "0.1.0"
edition = "2021"
publish = false

[dependencies]
winapi = { version = "0.3", features = ["winuser", "libloaderapi", "memoryapi", "winnt", "d3dcommon", "d3d11", "d3dcompiler", "dxgi", "dxgitype", "dxgiformat", "windef", "minwindef", "winerror", "ntdef"] }
