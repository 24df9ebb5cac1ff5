[package]
name = "routing_stats_cli"
version = "0.1.0"
edition = "2021"
publish = false

[dependencies]
clap = "2"
derive_more = "0.99"
