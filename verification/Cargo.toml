[package]
name = "stm32f401re"
version = "0.1.0"
edition = "2021"
publish = false

[dependencies]
cortex-m = "*"
volatile-register = "*"
