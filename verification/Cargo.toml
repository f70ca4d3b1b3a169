[package]
name = "mic_mute"
version = "0.1.0"
edition = "2021"
publish = false

[dependencies]
anyhow = "*"
async-std = "*"
directories = "*"
global-hotkey = "*"
tao = "*"
toml = "*"
tray-icon = "*"
