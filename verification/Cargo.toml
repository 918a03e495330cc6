[package]
name = "ipc_bridge"
version = "0.1.0"
edition = "2021"
publish = false

[dependencies]
xous = "*"
xous-ipc = "*"
xous-api-names = "*"
xous-api-ticktimer = "*"
num-traits = "*"
num-derive = "*"
rkyv = "*"
log = "*"
