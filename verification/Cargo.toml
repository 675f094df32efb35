[package]
name = "dockershell"
version = "0.1.0"
edition = "2021"
publish = false

[dependencies]
clap = "*"
dockworker = "*"
futures = "*"
rustyline = "*"
tar = "*"
termion = "*"
