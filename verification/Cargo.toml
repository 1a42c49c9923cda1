[package]
name = "mechanic_series"
version = "0.1.0"
edition = "2021"
publish = false

[dependencies]
boxcars = "*"
