[package]
name = "scheduler"
version = "0.1.0"
edition = "2021"
publish = false

[dependencies]
crossbeam = "=0.8.5"
heapless = "=0.8.0"
memory_addr = "=0.4.1"
