[package]
name = "teleport_collectd"
version = "0.1.0"
edition = "2021"
publish = false

[dependencies]
anyhow = "=1.0.104"
collectd-plugin = "=0.16.0"
log = "=0.4.34"
notify = "=5.0.0-pre.13"
once_cell = "=1.21.4"
rayon = "=1.12.0"
rillrate = "=0.41.0"
strum = "=0.28.0"
