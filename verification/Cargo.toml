[package]
name = "visual_novel"
version = "0.1.0"
edition = "2021"
publish = false

[dependencies]
cat_engine = "*"
