[package]
name = "wall_e"
version = "0.1.0"
edition = "2021"
publish = false

[dependencies]
hex = "0.4"
sha2 = "0.10"
sha3 = "0.10"
digest = "0.10"
hmac = "0.12"
pbkdf2 = { version = "0.12", default-features = false, features = ["hmac"] }
aes = "0.8"
cbc = "0.1"
cipher = { version = "0.4", features = ["block-padding", "alloc"] }
k256 = { version = "0.13", features = ["ecdsa"] }
bip32 = "0.5"
bip39 = "2"
rlp = "0.5"
zeroize = "1"
qrcode = { version = "0.14", default-features = false }
heapless = "0.8"
postcard = { version = "1", features = ["alloc"] }
cobs = "0.2"
serde = { version = "1", features = ["derive"] }
thiserror = "2"
anyhow = "1"
itertools = "0.13"
crossterm = "0.28"
ratatui = "0.29"
serialport = { version = "4", default-features = false }
embedded-graphics = "0.8"
embedded-storage = "0.3"
