[package]
name = "generator"
version = "0.1.0"
edition = "2021"
publish = false

[dependencies]
heck = "0.3"
nom = "4"
vkxml = "*"
vk-parse = "*"
