[package]
name = "bootloader_linker"
version = "0.1.0"
edition = "2021"
publish = false

[dependencies]
anyhow = "1"
bootloader = "0.11"
bootloader-boot-config = "0.11"
clap = { version = "4", features = ["derive"] }
env_logger = "0.10"
log = "0.4"
ovmf-prebuilt = "0.1.0-alpha.1"
