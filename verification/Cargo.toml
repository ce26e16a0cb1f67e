[package]
name = "rp2040_fred"
version = "0.1.0"
edition = "2021"
publish = false

[dependencies]
assign-resources = "*"
defmt = "*"
defmt-rtt = "*"
embassy-executor = "*"
embassy-futures = "*"
embassy-rp = { version = "*", features = ["rp2040", "time-driver", "critical-section-impl"] }
embassy-time = "*"
embassy-usb = "*"
panic-probe = "*"
pio = "*"
rp-pac = "*"
rusb = "*"
static_cell = "*"
