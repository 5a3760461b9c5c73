[package]
name = "backtrace_printer"
version = "0.1.0"
edition = "2021"
publish = false

[dependencies]
btparse = "*"
regex = "*"
colored = "*"
thiserror = "*"
