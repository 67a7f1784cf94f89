[package]
name = "gas_process"
version = "0.1.0"
edition = "2021"
publish = false

[dependencies]
aga8 = "=0.5.1"
crossterm = "=0.29.0"
ratatui = "=0.30.2"
ratatui-textarea = "=0.9.3"
