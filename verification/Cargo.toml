[package]
name = "soundanalysis"
version = "0.6.1"
edition = "2021"
publish = false

[dependencies]
doom-fish-utils = "*"
