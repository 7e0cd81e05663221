[package]
name = "rustyflame"
version = "0.1.0"
edition = "2021"

[dependencies]
rand = "0.8"
rand_distr = "0.4"
sdl2 = "0.35"
