[package]
name = "text_to_polly_ssml"
version = "0.1.0"
edition = "2021"
publish = false

[dependencies]
quick-xml = "*"
