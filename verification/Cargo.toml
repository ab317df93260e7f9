[package]
name = "erc20"
version = "0.1.0"
edition = "2021"
publish = false

[dependencies]
ink_primitives = { version = "=3.0.0-rc4" }
ink_prelude = { version = "=3.0.0-rc4" }
ink_allocator = { version = "=3.0.0-rc4" }
ink_metadata = { version = "=3.0.0-rc4" }
ink_env = { version = "=3.0.0-rc4" }
ink_storage_derive = { version = "=3.0.0-rc4" }
ink_storage = { version = "=3.0.0-rc4" }
ink_lang_ir = { version = "=3.0.0-rc4" }
ink_lang_codegen = { version = "=3.0.0-rc4" }
ink_lang_macro = { version = "=3.0.0-rc4" }
ink_lang = { version = "=3.0.0-rc4" }
parity-scale-codec = { version = "2.0", features = ["derive"] }
