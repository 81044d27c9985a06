[package]
name = "pty_shell"
version = "0.1.0"
edition = "2021"
publish = false

[dependencies]
libc = "=0.2.191"
mio = "=0.5.1"
nix = "=0.4.3"
pty = "=0.1.6"
