[package]
name = "tabnas-feed"
version = "0.6.9"
edition = "2021"
publish = false

[dependencies]
indexmap = "=2.14.2"
regex = "=1.13.1"
serde_json = "=1.0.154"
tabnas-jsonic = "=0.7.10"
tabnas-parser = "=0.12.15"
tabnas-xml = "=0.7.19"
