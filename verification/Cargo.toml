[package]
name = "imagix"
version = "0.1.0"
edition = "2021"
publish = false

[dependencies]
image = "*"
fs-err = "*"
clap = "4"
exitcode = "*"
