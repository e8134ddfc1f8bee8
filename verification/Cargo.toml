[package]
name = "cargo_hakari"
version = "0.1.0"
edition = "2021"
publish = false

[dependencies]
camino = "=1.2.6"
clap = { version = "=4.6.7", features = ["derive"] }
color-eyre = "=0.6.5"
dialoguer = "=0.12.0"
guppy = "=0.19.1"
hakari = { version = "=0.18.0", features = ["cli-support"] }
log = "=0.4.34"
owo-colors = "=4.4.0"
