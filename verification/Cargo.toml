[package]
name = "ws2812_ring"
version = "0.1.0"
edition = "2021"
publish = false

[dependencies]
palette = "0.7"
smart-leds = "0.3"
pio = "0.2"
fixed = "1"
defmt = "0.3"
defmt-rtt = "0.4"
panic-probe = "0.3"
embassy-executor = "*"
embassy-rp = "*"
embassy-time = "*"
