[package]
name = "simmer"
version = "0.3.0"
edition = "2021"
publish = false

[dependencies]
rustc_apfloat = "=0.2.3"
ufmt = "=0.2.0"
ufmt-write = "=0.1.0"
ufmt_float = "=0.2.0"
onlyerror = "=0.1.5"
arbitrary = { version = "=1.5.0", features = ["derive"] }
