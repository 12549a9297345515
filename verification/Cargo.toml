[package]
name = "weblayout"
version = "0.1.0"
edition = "2021"
publish = false

[dependencies]
url = "2"
html5ever = "0.27"
markup5ever_rcdom = "0.3"
cosmic-text = "0.12"
