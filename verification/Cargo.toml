[package]
name = "selfdbg"
version = "0.1.0"
edition = "2021"
publish = false

[dependencies]
cortex-m = "=0.7.10"
cortex-m-rt = "=0.7.7"
cyw43-pio = "=0.10.0"
defmt = "=1.2.0"
defmt-rtt = "=1.3.1"
embassy-boot-rp = "=0.10.0"
embassy-executor = "=0.10.0"
embassy-net = { version = "=0.9.1", features = ["defmt", "tcp", "proto-ipv4", "medium-ethernet", "dhcpv4"] }
embassy-rp = { version = "=0.10.0", features = ["defmt", "rp2040", "unstable-pac", "time-driver", "critical-section-impl"] }
embassy-sync = "=0.8.0"
embassy-time = { version = "=0.5.1", features = ["defmt"] }
embedded-io-async = "=0.7.0"
panic-probe = "=1.0.0"
