[package]
name = "roc_linker"
version = "0.1.0"
edition = "2021"
publish = false

[dependencies]
object = { version = "0.30", features = ["read", "write"] }
iced-x86 = { version = "1.18", default-features = false, features = ["std", "decoder", "op_code_info", "instr_info"] }
bincode = "1.3.3"
serde = { version = "1.0", features = ["derive"] }
memmap2 = "0.5"
target-lexicon = "0.12"
