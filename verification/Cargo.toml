[package]
name = "suntracker"
version = "0.1.0"
edition = "2021"
publish = false

[dependencies]
coap-lite = "*"
embedded-hal = "0.2"
adc-interpolator = "*"
nb = "*"
