[package]
name = "sigma_proofs"
version = "0.1.0"
edition = "2021"
publish = false

[dependencies]
ff = "=0.13.1"
group = "=0.13.0"
rand_core = { version = "=0.6.4", features = ["getrandom"] }
spongefish = { version = "=0.7.4", features = ["p256", "bls12_381"] }
p256 = { version = "=0.13.2", features = ["arithmetic"] }
bls12_381 = "=0.8.0"
sha3 = "=0.10.9"
