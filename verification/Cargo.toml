[package]
name = "rust_to_wgsl"
version = "0.1.0"
edition = "2021"
publish = false

[dependencies]
regex = "1"
syn = { version = "2", features = ["full", "visit", "visit-mut", "extra-traits"] }
quote = "1"
proc-macro2 = "1"
proc-macro-error = "1"
bytemuck = { version = "1", features = ["derive"] }
paste = "1"
