[package]
name = "ui_ratatui"
version = "0.1.0"
edition = "2021"
publish = false

[dependencies]
nucleo = "0.5"
ratatui = "0.29"
