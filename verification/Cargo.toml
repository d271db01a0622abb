[package]
name = "ruuvi"
version = "0.1.0"
edition = "2021"
publish = false

[dependencies]
bluer = { version = "=0.17.4", features = ["bluetoothd"] }
bluez-async = "=0.9.0"
chrono = "=0.4.45"
chrono-tz = "=0.10.4"
futures = "=0.3.34"
macaddr = "=1.0.1"
reqwest = { version = "=0.13.5", default-features = false }
serde = { version = "=1.0.229", features = ["derive"] }
serde_json = "=1.0.151"
tokio = { version = "=1.53.2", features = ["macros", "rt", "rt-multi-thread"] }
uuid = "=1.27.0"
