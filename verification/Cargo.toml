[package]
name = "polonius_the_crab"
version = "0.1.0"
edition = "2021"
publish = false

[dependencies]
higher-kinded-types = "*"
