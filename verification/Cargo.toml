[package]
name = "wrun"
version = "0.1.0"
edition = "2021"
publish = false

[dependencies]
wasmtime = { version = "*", default-features = false, features = ["cranelift", "runtime", "std", "signals-based-traps"] }
sha2 = "0.10"
clap = { version = "4", features = ["derive"] }
wat = "1"
ureq = "2"
serde = { version = "1", features = ["derive"] }
serde_json = "1"
candid = "*"
ic-agent = "*"
ic-management-canister-types = "*"
tokio = { version = "1", features = ["full"] }
futures = "0.3"
