[package]
name = "filecoin"
version = "0.1.0"
edition = "2021"

[dependencies]
anyhow = "=1.0.104"
bls-signatures = "=0.3.0"
blstrs = "=0.7.1"
drop_struct_macro_derive = "=0.5.0"
ffi-toolkit = "=0.5.0"
fil_logger = "=0.1.7"
filecoin-proofs = { version = "=19.1.0", default-features = false }
fr32 = { version = "=12.1.0", default-features = false }
libc = "=0.2.191"
log = "=0.4.34"
rand = "=0.7.3"
storage-proofs-core = { version = "=19.1.0", default-features = false }
