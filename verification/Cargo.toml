[package]
name = "elikar_egui"
version = "0.1.0"
edition = "2021"
publish = false

[dependencies]
crossbeam = "=0.8.5"
egui = "=0.16.1"
egui_wgpu_backend = "=0.16.0"
elikar = "=0.1.9"
futures = "=0.3.34"
parking_lot = "0.12"
wgpu = "=0.12.0"
xecs = "=0.5.10"
