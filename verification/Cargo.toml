[package]
name = "wazuh_agent_installer"
version = "0.1.0"
edition = "2021"
publish = false

[dependencies]
serde = { version = "1", features = ["derive"] }
tauri = { version = "2", default-features = false, features = ["tray-icon", "wry"] }
tokio = { version = "1", default-features = false, features = ["io-util", "macros", "process", "rt", "sync"] }
