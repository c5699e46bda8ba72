[package]
name = "libplist"
version = "0.1.0"
edition = "2021"
publish = false

[dependencies]
asprim = "*"
chrono = { version = "*", default-features = false, features = ["std"] }
libc = "*"
mbox = "*"
plist = { version = "*", default-features = false }
