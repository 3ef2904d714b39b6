[package]
name = "starflet"
version = "0.1.0"
edition = "2021"
publish = false

[dependencies]
cosmwasm-std = "=0.16.7"
cosmwasm-bignumber = "=2.2.0"
cw2 = "=0.8.1"
cw20 = "=0.8.1"
cw-storage-plus = "=0.8.1"
terraswap = "=2.4.1"
terra-cosmwasm = "=2.2.0"
moneymarket = "=0.3.0"
protobuf = "=2.28.0"
serde = "=1.0.229"
thiserror = "=1.0.69"
