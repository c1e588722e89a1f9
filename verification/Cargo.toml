[package]
name = "bls_wallet"
version = "0.1.0"
edition = "2021"
publish = false

[dependencies]
aes-gcm-siv = "=0.12.1"
argon2 = "=0.6.0"
bip39 = "=3.0.0"
sn_bls_ckd = "=0.2.1"
sn_curv = { version = "=0.10.1", default-features = false, features = ["num-bigint"] }
rand = "=0.10.3"

[dev-dependencies]
hex = "=0.4.3"
