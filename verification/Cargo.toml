[package]
name = "hue_persistence"
version = "0.1.0"
edition = "2021"
publish = false

[dependencies]
philipshue = { version = "=0.3.2", default-features = false }
clap = "=4.6.7"
log = "=0.4.34"
env_logger = "=0.11.11"
syslog = "=7.0.0"
