[package]
name = "flowy_core"
version = "0.1.0"
edition = "2021"
publish = false

[dependencies]
lazy_static = "=1.5.1"
parking_lot = "=0.12.5"
