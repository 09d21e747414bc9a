[package]
name = "sqrwallet"
version = "0.1.0"
edition = "2021"
publish = false

[dependencies]
argon2 = "0.5"
base64 = "0.22"
bech32 = "0.9"
bip39 = { version = "2", features = ["zeroize"] }
chacha20poly1305 = "0.10"
cosmos-sdk-proto = { version = "0.26", default-features = false }
fips204 = "0.4"
getrandom = "0.2"
hex = "0.4"
prost = "0.13"
rpassword = "7"
serde_json = "1"
sha2 = "0.10"
tiny_http = "0.12"
ureq = { version = "2", features = ["json"] }
zeroize = "1"
