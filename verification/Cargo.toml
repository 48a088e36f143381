[package]
name = "art_gallery"
version = "0.1.0"
edition = "2021"
publish = false

[dependencies]
frame-support = "=3.0.0"
frame-system = "=3.0.0"
orml-nft = "=0.4.0"
pallet-atomic-swap = "=3.0.0"
parity-scale-codec = { version = "=2.3.1", features = ["derive"] }
serde = { version = "=1.0.229", features = ["derive"] }
sp-runtime = "=3.0.0"
sp-std = "=3.0.0"
# The next two are named by no source file. They hold transitive dependencies
# of the 3.0.0 runtime crates at releases these still build with: later
# substrate-bip39 0.4.x brings a second schnorrkel beside the one sp-core
# uses, and later syn 1.x hides the `group` module that the macros of
# frame-support call.
substrate-bip39 = "=0.4.2"
syn = "=1.0.58"
