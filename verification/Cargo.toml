[package]
name = "embedded_plots"
version = "0.1.0"
edition = "2021"
publish = false

[dependencies]
embedded-graphics = "0.7"
