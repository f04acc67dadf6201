[package]
name = "win_mouse"
version = "0.1.0"
edition = "2021"
publish = false

[dependencies]
napi = { version = "=2.16.17", default-features = false, features = ["napi4", "tokio_rt"] }
napi-derive = "=2.16.13"
tokio = { version = "=1.54.1", features = ["rt"] }
windows = { version = "=0.58.0", features = ["Win32_Foundation", "Win32_UI_Input_KeyboardAndMouse", "Win32_UI_WindowsAndMessaging"] }
