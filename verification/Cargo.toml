[package]
name = "fhe_risk_server"
version = "0.1.0"
edition = "2021"
publish = false

[dependencies]
bincode = "=1.3.3"
crossterm = "=0.29.0"
