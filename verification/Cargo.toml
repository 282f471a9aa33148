[package]
name = "radeco_shell"
version = "0.1.0"
edition = "2021"
publish = false

[dependencies]
rustyline = "*"
clap = "*"
r2pipe = "*"

[dependencies.syntect]
version = "*"
default-features = false
features = ["default-fancy"]
