[package]
name = "fabric_runtime"
version = "0.1.0"
edition = "2021"
publish = false

[dependencies]
wat = "*"
cranelift-codegen = "0.67"
cranelift-entity = "0.67"
cranelift-module = "0.67"
cranelift-native = "0.67"
cranelift-simplejit = "0.67"
cranelift-wasm = "0.67"
