[package]
name = "mos_6502_emulator"
version = "0.1.0"
edition = "2021"
publish = false

[dependencies]
hex = "0.4.3"
dirs = "5.0.1"
crossterm = "0.27.0"
ratatui = "0.24.0"
