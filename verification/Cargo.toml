[package]
name = "imxrt_dma"
version = "0.1.0"
edition = "2021"
publish = false

[dependencies]
ral-registers = "0.1"
