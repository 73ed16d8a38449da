[package]
name = "jh7110_bringup"
version = "0.1.0"
edition = "2021"
publish = false

[dependencies]
embedded-hal-nb = "=1.0.0"
embedded-io = "=0.6.1"
jh71xx-hal = { version = "=0.7.2", features = ["rt"] }
nb = "=1.1.0"
panic-halt = "=1.0.0"
riscv-rt = "=0.14.0"
ushell = "=0.4.0"
