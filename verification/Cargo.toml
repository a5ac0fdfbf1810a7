[package]
name = "speech_encoder"
version = "0.1.0"
edition = "2021"
publish = false

[dependencies]
audiopus = "0.2"
jbonsai = "*"
