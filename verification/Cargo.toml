[package]
name = "termint"
version = "0.1.0"
edition = "2021"
publish = false

[dependencies]
rust-ini = "*"
clap = "4"
gtk4 = "*"
gio = "*"
vte4 = "*"
