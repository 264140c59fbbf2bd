[package]
name = "tictactoe"
version = "0.1.0"
edition = "2021"
publish = false

[dependencies]
find_folder = "=0.3.0"
piston_window = { version = "=0.132.0", default-features = false }
pistoncore-sdl2_window = "=0.71.0"
