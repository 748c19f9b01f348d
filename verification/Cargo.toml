[package]
name = "garnd"
version = "0.1.0"
edition = "2021"
publish = false

[dependencies]
nix = { version = "0.30", features = ["event", "feature", "fs", "mman", "poll", "process", "signal", "socket", "uio", "user"] }
caps = "0.5"
errno = "0.3"
chrono = "0.4"
uuid = "1"
hashed-type-def = "*"
cfg-if = "1"
libc = "0.2"
rustix = { version = "1", features = ["net"] }
