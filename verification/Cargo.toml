[package]
name = "cjs_to_esm"
version = "0.1.0"
edition = "2021"
publish = false

[dependencies]
swc_atoms = "=10.0.0"
swc_common = "=26.0.0"
swc_ecma_ast = "=29.0.2"
swc_ecma_parser = { version = "=46.0.0", features = ["unstable"] }
