[package]
name = "pallet_abstractions"
version = "0.1.0"
edition = "2021"
publish = false

[dependencies]
syn = { version = "2", default-features = false, features = ["derive", "parsing", "extra-traits", "clone-impls"] }
