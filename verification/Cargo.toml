[package]
name = "teama"
version = "0.1.0"
edition = "2021"
publish = false

[dependencies]
vexide = "=0.8.0"
vex-sdk = "=0.28.0"
vexide-motorgroup = "=2.2.0"
autons = "=0.2.0"
log = "=0.4.35"
snafu = "=0.8.9"
nalgebra = "=0.34.2"
