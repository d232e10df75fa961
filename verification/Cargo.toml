[package]
name = "gofer"
version = "0.1.0"
edition = "2021"
publish = false

[dependencies]
data-url = "=0.3.2"
dogma = "=0.2.2"
fs-err = "=3.3.2"
percent-encoding = "=2.3.2"
suppaftp = "=12.1.1"
ureq = "=3.4.2"
