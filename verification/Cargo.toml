[package]
name = "runtime_parachains"
version = "0.1.0"
edition = "2021"
publish = false

[dependencies]
frame-support = "=3.0.0"
frame-system = "=3.0.0"
pallet-session = "=3.0.0"
parity-scale-codec = { version = "=2.3.1", features = ["derive"] }
sp-runtime = "=3.0.0"
sp-staking = "=3.0.0"
sp-std = "=3.0.0"
substrate-bip39 = "=0.4.2"
syn = "=1.0.60"
