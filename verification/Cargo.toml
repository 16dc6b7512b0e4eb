[package]
name = "motorctl"
version = "0.1.0"
edition = "2021"
publish = false

[dependencies]
avr-q = "*"
curveipo = "*"
avr-context = "*"
avr-atomic = "*"
avr-stack = "*"
avr-device = { version = "*", features = ["attiny861a"] }
