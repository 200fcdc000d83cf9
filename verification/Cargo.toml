[package]
name = "jax_os"
version = "0.1.0"
edition = "2021"
publish = false

[dependencies]
lazy_static = { version = "1.4.0", features = ["spin_no_std"] }
rlibc = "1.0.0"
spin = "0.5.2"
volatile = "0.2.6"
x86_64 = { version = "0.14.2", default-features = false, features = ["instructions"] }
