[package]
name = "lgtv-service"
version = "0.1.0"
edition = "2021"
publish = false

[dependencies]
anyhow = "1"
env_logger = "*"
eventlog = "*"
futures-util = { version = "*", features = ["sink"] }
log = "0.4"
native-tls = "*"
serde = { version = "1", features = ["derive"] }
serde_json = "1"
simplelog = "*"
tokio = { version = "1", features = ["rt-multi-thread", "macros", "sync", "time", "net"] }
tokio-tungstenite = { version = "*", features = ["native-tls"] }
toml = "*"
uuid = { version = "1", features = ["v4"] }
wakey = "*"
windows = { version = "*", features = ["Win32_Foundation", "Win32_System_Power", "Win32_UI_WindowsAndMessaging", "Win32_System_EventLog"] }
windows-service = "*"
