[package]
name = "rust_music_theory"
version = "0.1.0"
edition = "2021"
publish = false

[dependencies]
regex = "1"
clap = "2.33"
structopt = "0.3"
