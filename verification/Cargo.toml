[package]
name = "filecoin_proofs_ffi"
version = "0.1.0"
edition = "2021"
publish = false

[dependencies]
filecoin-proofs = { version = "19.1.0", default-features = false }
ffi-toolkit = "0.5.0"
libc = "0.2"
slog = "2.8"
