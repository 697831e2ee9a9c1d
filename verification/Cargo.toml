[package]
name = "minimal"
version = "0.1.0"
edition = "2021"
publish = false

[dependencies]
actix = { version = "=0.8.3", default-features = false }
actix-web = { version = "=1.0.9", default-features = false }
# Named only to hold its version. actix-http 0.2, on which actix-web 1.0 is
# built, subtracts a chrono `Duration` from a `Tm` of time 0.1. That compiles
# only while chrono's `Duration` is the one of time 0.1, as it is up to
# chrono 0.4.19.
chrono = "=0.4.19"
