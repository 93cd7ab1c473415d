[package]
name = "open_ai_rust_fn_call_extension"
version = "0.3.0"
edition = "2021"
publish = false

[dependencies]
syn = { version = "2", features = ["full"] }
quote = "1"
proc-macro2 = "1"
