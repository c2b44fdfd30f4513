[package]
name = "js_transformer"
version = "0.1.0"
edition = "2021"
publish = false

[dependencies]
oxc_allocator = "=0.141.0"
oxc_ast = "=0.141.0"
oxc_codegen = "=0.141.0"
oxc_parser = "=0.141.0"
oxc_semantic = "=0.141.0"
oxc_span = "=0.141.0"
oxc_traverse = "=0.141.0"
serde = { version = "=1.0.229", features = ["derive"] }
serde_json = "=1.0.154"
wasm-bindgen = "=0.2.129"
