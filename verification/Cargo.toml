[package]
name = "mixer"
version = "0.1.0"
edition = "2021"
publish = false

[dependencies]
fawkes-crypto = "=2.2.0"
fawkes-crypto_derive = "=0.1.2"
pairing_ce = "=0.18.0"
ff_ce = "=0.7.1"
rand = "=0.4.6"
typenum = "=1.12.0"
lazy_static = "=1.5.1"
serde = { version = "=1.0.229", features = ["derive"] }
serde_json = "=1.0.154"
clap = "=3.0.0-beta.1"
clap_derive = "=3.0.0-beta.1"
