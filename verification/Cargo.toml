[package]
name = "simd_complex"
version = "0.1.0"
edition = "2021"
publish = false

[dependencies]
libm = { version = "=0.2.16", default-features = false, features = ["force-soft-floats"] }
const_soft_float = "=0.1.4"
