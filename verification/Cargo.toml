[package]
name = "challenges"
version = "0.1.0"
edition = "2021"
publish = false

[dependencies]
rand = "0.9"
chrono = "0.4"
primal = "0.3"
colored = "2"
crossterm = "0.27"
once_cell = "1"
rpassword = "7"
