[package]
name = "plexlooper"
version = "0.1.0"
edition = "2021"
publish = false

[dependencies]
vst = "=0.4.0"
asprim = "=0.2.0"
num-traits = "=0.2.19"
log = "=0.4.34"
log-panics = "=2.1.0"
simplelog = "=0.12.2"
app_dirs = "=1.2.1"
