[package]
name = "iter_identify_first_last"
version = "0.1.0"
edition = "2021"
publish = false
