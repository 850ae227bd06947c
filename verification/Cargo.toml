[package]
name = "smart_compass"
version = "0.1.0"
edition = "2021"
publish = false

[dependencies]
accelerometer = "=0.12.0"
cortex-m = "=0.7.10"
embedded-hal = "=0.2.7"
heapless = "=0.5.6"
micromath = "=2.1.0"
nb = "=1.1.0"
num = "=0.4.3"
numtoa = "=1.0.1"
radio = "=0.4.4"
radio-sx127x = { version = "=0.10.1", default-features = false }
serde = { version = "=1.0.229", default-features = false, features = ["derive"] }
serde_cbor = "=0.11.2"
shared-bus = "=0.1.4"
smart-leds = "=0.3.0"
time = "=0.2.27"
yanp = "=0.1.1"
