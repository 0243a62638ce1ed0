[package]
name = "minivmm"
version = "0.1.0"
edition = "2021"
publish = false

[dependencies]
anyhow = "1"
kvm-bindings = "*"
kvm-ioctls = "*"
memmap2 = "*"
object = "*"
parking_lot = "*"
tinyvec = "1"
