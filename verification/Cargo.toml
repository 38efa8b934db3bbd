[package]
name = "valida_verifier"
version = "0.1.0"
edition = "2021"
publish = false

[dependencies]
ciborium = "=0.2.2"
p3-baby-bear = "=0.1.0"
p3-field = "=0.1.0"
rand = "=0.8.8"
rand_pcg = "=0.3.1"
rand_seeder = "=0.2.3"
