[package]
name = "viu"
version = "0.1.0"
edition = "2021"
publish = false

[dependencies]
ansi_colours = { version = "=1.2.3", default-features = false }
clap = { version = "=4.6.7", features = ["cargo"] }
crossterm = "=0.29.0"
ctrlc = "=3.5.2"
image = { version = "=0.25.10", default-features = false, features = ["gif", "png", "jpeg", "bmp", "webp"] }
jxl-oxide = { version = "=0.12.6", features = ["image"] }
libc = "=0.2.191"
termcolor = "=1.4.1"
viuer = { version = "=0.11.0", features = ["print-file"] }
