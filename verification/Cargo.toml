[package]
name = "robo_arm"
version = "0.1.0"
edition = "2021"
publish = false

[dependencies]
embassy-executor = "=0.10.0"
embassy-futures = "=0.1.2"
embassy-net = "=0.9.1"
embassy-sync = "=0.8.0"
embassy-time = "=0.5.1"
embedded-hal = "=1.0.0"
embedded-io-async = "=0.7.0"
embedded-storage = "=0.3.2"
embedded-storage-async = "=0.4.2"
enumset = { version = "=1.1.15", features = ["serde"] }
esp-alloc = "=0.9.0"
esp-bootloader-esp-idf = "=0.6.0"
esp-hal = "=1.2.2"
esp-println = "=0.18.0"
esp-radio = "=0.17.0"
esp-rtos = "=0.4.0"
esp-storage = "=0.10.0"
heapless = { version = "=0.9.3", features = ["serde"] }
leasehund = "=0.6.0"
libm = "=0.2.16"
postcard = { version = "=1.1.3", features = ["experimental-derive"] }
sequential-storage = "=7.2.0"
serde = { version = "=1.0.229", features = ["derive"] }
static_cell = "=2.1.1"
tokio = { version = "=1.54.1", features = ["full"] }
