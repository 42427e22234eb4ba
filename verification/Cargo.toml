[package]
name = "magicwand"
version = "0.1.0"
edition = "2021"
publish = false

[dependencies]
anyhow = "=1.0.104"
arc-swap = "=1.9.3"
arrayvec = "=0.7.8"
embedded-svc = "=0.29.0"
esp32-nimble = "=0.13.0"
esp-idf-hal = "=0.47.0"
esp-idf-svc = "=0.53.0"
heapless = { version = "=0.9.3", features = ["serde"] }
log = "=0.4.34"
memchr = "=2.8.3"
mycelium-bitfield = "=0.1.5"
parking_lot = "=0.12.5"
rhai = "=1.27.0"
rhai-rand = "=0.2.0"
serde = { version = "=1.0.229", features = ["derive"] }
serde_json = { version = "=1.0.154", features = ["raw_value"] }
smart-leds-trait = "=0.3.2"
thingbuf = { version = "=0.1.6", features = ["static"] }
ws2812-esp32-rmt-driver = { version = "=0.15.0", features = ["smart-leds-trait"] }
