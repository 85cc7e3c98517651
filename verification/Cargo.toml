[package]
name = "imgur"
version = "0.1.0"
edition = "2021"
publish = false

[dependencies]
# No code here uses cc. It is held to this version for ring 0.13, on which
# hyper-rustls builds: ring's build script compiles against it, and does not
# against the newest cc.
cc = "=1.0.79"
hyper = "=0.10.16"
hyper-rustls = "=0.6.2"
serde_json = "=1.0.154"
