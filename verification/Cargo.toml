[package]
name = "dk"
version = "0.1.0"
edition = "2021"
publish = false

[dependencies]
cortex-m = "=0.7.10"
cortex-m-semihosting = "=0.5.0"
defmt = "=0.3.101"
defmt-rtt = "=0.4.2"
embedded-hal = "=1.0.0"
grounded = { version = "=0.2.1", features = ["cas"] }
nrf52840-hal = { version = "=0.18.0", default-features = false, features = ["rt"] }
tokio = { version = "=1.54.1", features = ["io-std", "io-util", "macros", "net", "rt-multi-thread"] }
