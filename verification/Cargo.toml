[package]
name = "audio_decode"
version = "0.1.0"
edition = "2021"
publish = false

[dependencies]
audiopus = "0.2"
symphonia = "0.5"
symphonia-core = "0.5"
once_cell = "1"
