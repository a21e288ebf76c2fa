[package]
name = "craps_pinocchio"
version = "0.1.0"
edition = "2021"
publish = false

[dependencies]
bs58 = "0.5"
bytemuck = { version = "1", features = ["derive"] }
pinocchio = "0.8"
pinocchio-log = "0.4"
pinocchio-pubkey = "0.2"
pinocchio-system = "0.2"
pinocchio-token = "0.3"
