[package]
name = "plotter_motion"
version = "0.1.0"
edition = "2021"
publish = false

[dependencies]
heapless = "0.5"
gcode = "0.6"
