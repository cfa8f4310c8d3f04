[package]
name = "vm2_testkit"
version = "0.1.0"
edition = "2021"
publish = false

[dependencies]
arbitrary = { version = "1", features = ["derive"] }
primitive-types = { version = "0.12", features = ["arbitrary"] }
zkevm_opcode_defs = "*"
