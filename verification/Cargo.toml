[package]
name = "gpgme"
version = "0.1.0"
edition = "2021"
publish = false

[dependencies]
gpg-error = "*"
libc = "0.2"
