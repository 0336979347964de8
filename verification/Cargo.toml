[package]
name = "pio_spi"
version = "0.1.0"
edition = "2021"
publish = false

[dependencies]
fixed = "*"
pio = "*"
defmt = "*"
defmt-rtt = "*"
panic-probe = "*"
embassy-executor = "*"
embassy-time = "*"
embassy-rp = { version = "*", features = ["rp235xa", "time-driver", "critical-section-impl"] }
