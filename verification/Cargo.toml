[package]
name = "esp_clock"
version = "0.1.0"
edition = "2021"
publish = false

[dependencies]
chrono = "=0.4.45"
chrono-tz = "=0.10.4"
embedded-svc = "0.28"
esp-idf-svc = "0.51"
log = "0.4"
postcard = "=1.1.3"
serde = { version = "1", features = ["derive"] }
serde_json = "1"
thiserror = "2"
tm1637 = "0.1"
ws2812-esp32-rmt-driver = { version = "0.12", features = ["smart-leds-trait"] }
