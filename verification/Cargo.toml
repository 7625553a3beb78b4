[package]
name = "bangrs"
version = "0.1.0"
edition = "2021"
publish = false

[dependencies]
anyhow = "=1.0.104"
camino = "=1.2.6"
cpal = "=0.15.3"
crossbeam-channel = "=0.5.17"
lofty = "=0.22.4"
rfd = "=0.17.2"
symphonia = "=0.5.5"
thiserror = "=2.0.21"
tracing = "=0.1.44"
tracing-subscriber = "=0.3.23"
walkdir = "=2.5.0"
