[package]
name = "pylontech_mqtt_adapter"
version = "0.1.0"
edition = "2021"
publish = false

[dependencies]
clap = { version = "4", features = ["derive"] }
hex = "0.4"
rumqttc = { version = "*", default-features = false }
serde_json = "1"
thiserror = "*"
