[package]
name = "sun2000"
version = "0.1.0"
edition = "2021"
publish = false

[dependencies]
chrono = "=0.4.45"
tokio = { version = "=1.53.2", features = ["full"] }
tokio-modbus = "=0.17.0"
influxdb = "=0.8.0"
simplelog = "=0.12.2"
rust-ini = "=0.21.3"
ctrlc = "*"
futures = "*"
humantime = "*"
async-channel = "*"
log = "*"
