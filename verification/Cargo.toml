[package]
name = "tarantool"
version = "0.1.0"
edition = "2021"
publish = false

[dependencies]
libc = "0.2"
num-traits = "0.2"
rmp = "*"
rmp-serde = "*"
thiserror = "1"
va_list = "0.1"
