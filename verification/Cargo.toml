[package]
name = "lintx"
version = "0.1.0"
edition = "2021"
publish = false

[dependencies]
crc = "=3.4.0"
crsf = "=2.0.1"
toml = "=1.1.8"
serde = { version = "=1.0.229", features = ["derive"] }
clap = { version = "=4.6.7", features = ["derive"] }
serialport = { version = "=4.10.1", default-features = false }
ads1x1x = "=0.3.0"
linux-embedded-hal = "=0.5.0"
nb = "=1.1.0"
joydev = "=0.3.1"

[dev-dependencies]
rand = "=0.8.8"
