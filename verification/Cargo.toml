[package]
name = "soroban_invariant_kit"
version = "0.1.0"
edition = "2021"
publish = false

[dependencies]
arbitrary = "1"
proptest = "1"
thiserror = "1"
