[package]
name = "arp_tarpit"
version = "0.1.0"
edition = "2021"
publish = false

[dependencies]
pnet = "*"
pnet_base = "*"
pnet_datalink = "*"
pnet_packet = "*"
pcap = "*"
tokio = { version = "*", features = ["rt", "rt-multi-thread", "time"] }
