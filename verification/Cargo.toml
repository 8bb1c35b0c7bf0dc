[package]
name = "pad_oxide"
version = "0.1.0"
edition = "2021"
publish = false

[dependencies]
embassy-usb = { version = "=0.6.0", default-features = false }
embassy-sync = "=0.8.0"
embassy-futures = "=0.1.2"
embassy-time = "=0.5.1"
embassy-executor = { version = "=0.9.1", features = ["arch-std", "executor-thread"] }
embassy-stm32 = { version = "=0.6.0", features = ["stm32f103c8", "time-driver-any"] }
heapless = "=0.7.17"
keypad = "=0.2.2"
defmt = "=1.2.0"
defmt-rtt = "=1.3.1"
panic-probe = "=1.0.0"
