[package]
name = "ledboard"
version = "0.1.0"
edition = "2021"
publish = false

[dependencies]
cortex-m = "=0.7.10"
cortex-m-rt = "=0.7.7"
critical-section = "=1.2.0"
defmt = "=1.2.0"
defmt-rtt = "=1.3.1"
embassy = "=0.0.0"
embassy-executor = "=0.9.1"
embassy-stm32 = { version = "=0.6.0", features = ["stm32f103c8", "exti", "time-driver-any"] }
embassy-sync = "=0.8.0"
embassy-time = "=0.5.1"
embedded-hal = "=1.0.0"
embedded-hal-async = "=1.0.0"
futures = { version = "=0.3.34", default-features = false }
panic-probe = "=1.0.0"
rotary-encoder-hal = "=0.6.0"
