[package]
name = "embassy_hello_world"
version = "0.1.0"
edition = "2021"
publish = false

[dependencies]
embassy-executor = "=0.10.0"
embassy-time = "=0.5.1"
esp-backtrace = { version = "=0.20.0", features = ["esp32", "panic-handler", "println"] }
esp-bootloader-esp-idf = { version = "=0.6.0", features = ["esp32"] }
esp-hal = { version = "=1.2.2", features = ["esp32", "unstable"] }
esp-println = { version = "=0.18.0", features = ["esp32", "log-04"] }
esp-rtos = { version = "=0.4.0", features = ["esp32", "embassy"] }
