[package]
name = "bluetooth_eir"
version = "0.1.0"
edition = "2021"
publish = false

[dependencies]
bytes = "0.5"
enumflags2 = "0.6"
num-derive = "0.3"
num-traits = "0.2"
thiserror = "1.0"
