[package]
name = "elf_signature"
version = "0.1.0"
edition = "2021"
publish = false

[dependencies]
eyre = "*"
object = { version = "*", default-features = false, features = ["read", "std"] }
openvm-circuit = "*"
openvm-rv32im-transpiler = "*"
openvm-sdk = "*"
openvm-stark-backend = "*"
openvm-transpiler = "*"
