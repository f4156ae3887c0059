[package]
name = "midi_uniforms"
version = "0.1.0"
edition = "2021"
publish = false

[dependencies]
anyhow = "1"
midir = "0.5"
wmidi = "4"
