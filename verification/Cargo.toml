[package]
name = "gluon"
version = "0.1.0"
edition = "2021"
publish = false

[dependencies]
anyhow = "=1.0.104"
base64 = "=0.13.1"
log = "=0.4.34"
prost = "=0.6.1"
# Named by no source file: it holds rmp at the last line of releases with the
# free `rmp::decode::read_data_*` functions, which rmp-serde 0.14 (under
# wascc-codec and tea-codec) calls. With a later rmp those crates do not
# compile.
rmp = "=0.8.8"
serde = { version = "=1.0.229", features = ["derive"] }
tea-actor-utility = "=0.1.0"
tea-codec = "=0.1.1"
# Named by no source file: 0.3.1 is the release whose `CallResult` the
# `actor_handlers!` macro of wascc-actor 0.7.1 compiles against.
wapc-guest = "=0.3.1"
# 0.7.1 is the release that tea-actor-utility 0.1.0 compiles against.
wascc-actor = "=0.7.1"
