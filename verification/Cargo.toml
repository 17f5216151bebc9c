[package]
name = "vscode_keymap"
version = "0.1.0"
edition = "2021"
publish = false

[dependencies]
anyhow = "=1.0.104"
serde_json = "=1.0.154"
serde_json_lenient = "=0.2.4"
windows = { version = "=0.58.0", features = ["Win32_UI_Input_KeyboardAndMouse", "Win32_UI_WindowsAndMessaging"] }
windows-core = "=0.58.0"
windows-registry = "=0.2.0"
