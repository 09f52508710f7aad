[package]
name = "sensor_node"
version = "0.1.0"
edition = "2021"
publish = false

[dependencies]
ds18b20 = "*"
one-wire-bus = "*"
embedded-hal = "0.2"
embedded-svc = "*"
esp-idf-hal = "*"
esp-idf-svc = "*"
esp-idf-sys = "*"
log = "*"
serde = { version = "*", features = ["derive"] }
serde_json = "*"
