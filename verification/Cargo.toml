[package]
name = "age-otp"
version = "0.2.0"
edition = "2021"
publish = false

[dependencies]
age-setup = "0.1"
bech32 = "0.11"
hex = "0.4"
hkdf = "0.12"
hmac = "0.12"
sha2 = "0.10"
subtle = "2.5"
thiserror = "1.0"
