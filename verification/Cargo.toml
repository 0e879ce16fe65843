[package]
name = "little_synth"
version = "0.1.0"
edition = "2021"
publish = false

[dependencies]
libm = "0.2"
cortex-m = "0.7"
cortex-m-rt = "0.7"
embedded-hal = "0.2"
imxrt-ral = { version = "0.5", features = ["imxrt1062"] }
teensy4-bsp = "0.5"
