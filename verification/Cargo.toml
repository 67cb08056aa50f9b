[package]
name = "mdns"
version = "0.3.2"
edition = "2021"
publish = false

[dependencies]
dns-parser = "0.8"
mio = "0.6"
net2 = "0.2"
ifaces = "0.1"
ipconfig = "0.1"
