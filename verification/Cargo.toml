[package]
name = "space_rts"
version = "0.1.0"
edition = "2021"
publish = false

[dependencies]
getopts = "0.2"
iron = "0.6"
rand = "0.8"
rustc-serialize = "0.3"
time = "0.1"
