[package]
name = "led_chase"
version = "0.1.0"
edition = "2021"
publish = false

[dependencies]
cortex-m = "*"
cortex-m-rt = "*"
defmt = "*"
defmt-rtt = "*"
embedded-alloc = "*"
panic-probe = "*"
stm32f4xx-hal = { version = "*", features = ["stm32f407"] }
