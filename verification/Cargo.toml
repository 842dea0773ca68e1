[package]
name = "mics_vz_89te"
version = "0.1.0"
edition = "2021"
publish = false

[dependencies]
embedded-hal = "0.2"
time = "0.3"
