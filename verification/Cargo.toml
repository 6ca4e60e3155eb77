[package]
name = "blflash"
version = "0.3.0"
edition = "2021"
publish = false

[dependencies]
byteorder = "1"
crc = "1.8"
sha2 = "0.9"
xmas-elf = "0.7"
hex = "0.4"
log = "0.4"
serial = "0.4"
serde = { version = "1.0", features = ["derive"] }
toml = "0.5"
structopt = "0.3"
thiserror = "1.0"
env_logger = "0.8"
indicatif = "0.15"
parse_int = "*"
main_error = "*"
