[package]
name = "rust_sfml"
version = "0.1.0"
edition = "2021"
publish = false

[dependencies]
derive_more = { version = "1.0", features = ["add", "add_assign", "mul", "mul_assign", "as_ref", "deref", "deref_mut"] }
