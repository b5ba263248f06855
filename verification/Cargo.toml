[package]
name = "map_bench"
version = "0.1.0"
edition = "2021"
publish = false

[dependencies]
bustle = "=0.5.1"
chashmap = "=2.2.2"
contrie = "=0.1.4"
crossbeam = "=0.7.2"
crossbeam-epoch = "=0.9.21"
dashmap = "=6.2.1"
flurry = "=0.5.2"
tracing-subscriber = "=0.3.23"
