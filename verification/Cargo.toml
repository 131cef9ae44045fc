[package]
name = "swf-parser"
version = "0.14.0"
edition = "2021"
publish = false

[dependencies]
inflate = "0.4"
lzma-rs = "0.3"
half = "1"
