[package]
name = "zecwallet_cli"
version = "0.1.0"
edition = "2021"
publish = false

[dependencies]
bip39 = "*"
json = "*"
shellwords = "*"
clap = "*"
http = "*"
log = "*"
log4rs = "*"
rustyline = "*"
