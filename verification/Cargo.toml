[package]
name = "kik_pok"
version = "0.1.0"
edition = "2021"
publish = false

[dependencies]
itertools = "=0.14.0"
godot = "=0.5.5"
spacetimedb = "=1.12.0"
spacetimedb-sdk = "=1.12.0"
thiserror = "=1.0.69"
lazy_static = "=1.5.1"
log = "=0.4.34"
