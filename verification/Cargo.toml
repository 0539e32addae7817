[package]
name = "tictactoe"
version = "0.1.0"
edition = "2021"

[dependencies]
ggez = "0.5"
nalgebra = "0.18"
rand = "0.8"
