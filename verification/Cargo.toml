[package]
name = "moonlight"
version = "0.1.0"
edition = "2021"
publish = false

[dependencies]
termion = "*"
addy = "*"
csscolorparser = "*"
generational-arena = "*"
