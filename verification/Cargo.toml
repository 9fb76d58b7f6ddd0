[package]
name = "randcast"
version = "0.1.0"
edition = "2021"
publish = false

[dependencies]
rand = "=0.10.3"
flume = "=0.12.0"
tiny_http = "=0.12.0"
tempfile = "=3.27.0"
jwalk = "=0.9.0"
rayon = "=1.12.0"
parking_lot = "=0.12.5"
thiserror = "=2.0.21"
