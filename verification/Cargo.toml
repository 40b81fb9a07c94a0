[package]
name = "sprite_batch"
version = "0.1.0"
edition = "2021"
publish = false

[dependencies]
gl = "*"
glm = "*"
sdl2 = "*"
stb_image = "*"
