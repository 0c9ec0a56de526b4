[package]
name = "soulsy"
version = "0.1.0"
edition = "2021"
publish = false

[dependencies]
bincode = { version = "=2.0.1", features = ["derive"] }
byte-slice-cast = "=1.2.3"
ucs2 = "=0.3.3"
chardet = "=0.2.4"
encoding = "=0.2.33"
strfmt = "=0.2.6"
rust-ini = "=0.21.3"
lru = "*"
