[package]
name = "symjit_bridge"
version = "0.1.0"
edition = "2021"
publish = false

[dependencies]
anyhow = "=1.0.104"
bytemuck = "=1.25.2"
num-complex = "=0.4.6"
symbolica = { version = "=2.2.0", default-features = false, features = ["no_gmp"] }
symjit = "=2.24.1"
wide = "=1.7.1"
