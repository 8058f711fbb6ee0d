[package]
name = "js_boundary"
version = "0.1.0"
edition = "2021"
publish = false

[dependencies]
rquickjs-sys = "*"
syn = { version = "1", features = ["full"] }
proc-macro2 = "1"
darling = "0.14"
proc-macro-error = "1"
