[package]
name = "timeloop"
version = "0.1.0"
edition = "2021"
publish = false

[dependencies]
unicode-segmentation = "1"
unicode-width = "0.1"
termion = "2"
nix = "0.26"
